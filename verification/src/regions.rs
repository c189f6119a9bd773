//! Administrative regions of Ukraine, as the registry codes them.

use vstd::prelude::*;

use crate::json::{js_as_u64, js_u64_value, json_model, JsonData};
use crate::render::{dec_digits, u32_dec};

verus! {

/// A Ukrainian administrative region. Each variant carries a fixed registry
/// code that is the only form in which the region appears on the wire.
#[derive(Debug, Clone, Copy, PartialEq, Eq, Structural)]
pub enum Region {
    RepublicOfCrimea,
    VinnytsiaOblast,
    VolynOblast,
    DnipropetrovskOblast,
    DonetskOblast,
    ZhytomyrOblast,
    ZakarpattiaOblast,
    ZaporizhzhiaOblast,
    IvanoFrankivskOblast,
    KyivOblast,
    KirovohradOblast,
    LuhanskOblast,
    LvivOblast,
    MykolaivOblast,
    OdesaOblast,
    PoltavaOblast,
    RivneOblast,
    SumyOblast,
    TernopilOblast,
    KharkivOblast,
    KhersonOblast,
    KhmelnytskyiOblast,
    CherkasyOblast,
    ChernivtsiOblast,
    ChernihivOblast,
    KyivCity,
    SevastopolCity,
}

impl Region {
    /// The frozen registry code of each region.
    pub open spec fn spec_code(self) -> u32 {
        match self {
            Region::RepublicOfCrimea => 1,
            Region::VinnytsiaOblast => 5,
            Region::VolynOblast => 7,
            Region::DnipropetrovskOblast => 12,
            Region::DonetskOblast => 14,
            Region::ZhytomyrOblast => 18,
            Region::ZakarpattiaOblast => 21,
            Region::ZaporizhzhiaOblast => 23,
            Region::IvanoFrankivskOblast => 26,
            Region::KyivOblast => 32,
            Region::KirovohradOblast => 35,
            Region::LuhanskOblast => 44,
            Region::LvivOblast => 46,
            Region::MykolaivOblast => 48,
            Region::OdesaOblast => 51,
            Region::PoltavaOblast => 53,
            Region::RivneOblast => 56,
            Region::SumyOblast => 59,
            Region::TernopilOblast => 61,
            Region::KharkivOblast => 63,
            Region::KhersonOblast => 65,
            Region::KhmelnytskyiOblast => 68,
            Region::CherkasyOblast => 71,
            Region::ChernivtsiOblast => 73,
            Region::ChernihivOblast => 74,
            Region::KyivCity => 80,
            Region::SevastopolCity => 85,
        }
    }

    /// The region a registry code stands for, if any.
    pub open spec fn spec_from_code(code: u32) -> Option<Region> {
        if code == 1 {
            Some(Region::RepublicOfCrimea)
        } else if code == 5 {
            Some(Region::VinnytsiaOblast)
        } else if code == 7 {
            Some(Region::VolynOblast)
        } else if code == 12 {
            Some(Region::DnipropetrovskOblast)
        } else if code == 14 {
            Some(Region::DonetskOblast)
        } else if code == 18 {
            Some(Region::ZhytomyrOblast)
        } else if code == 21 {
            Some(Region::ZakarpattiaOblast)
        } else if code == 23 {
            Some(Region::ZaporizhzhiaOblast)
        } else if code == 26 {
            Some(Region::IvanoFrankivskOblast)
        } else if code == 32 {
            Some(Region::KyivOblast)
        } else if code == 35 {
            Some(Region::KirovohradOblast)
        } else if code == 44 {
            Some(Region::LuhanskOblast)
        } else if code == 46 {
            Some(Region::LvivOblast)
        } else if code == 48 {
            Some(Region::MykolaivOblast)
        } else if code == 51 {
            Some(Region::OdesaOblast)
        } else if code == 53 {
            Some(Region::PoltavaOblast)
        } else if code == 56 {
            Some(Region::RivneOblast)
        } else if code == 59 {
            Some(Region::SumyOblast)
        } else if code == 61 {
            Some(Region::TernopilOblast)
        } else if code == 63 {
            Some(Region::KharkivOblast)
        } else if code == 65 {
            Some(Region::KhersonOblast)
        } else if code == 68 {
            Some(Region::KhmelnytskyiOblast)
        } else if code == 71 {
            Some(Region::CherkasyOblast)
        } else if code == 73 {
            Some(Region::ChernivtsiOblast)
        } else if code == 74 {
            Some(Region::ChernihivOblast)
        } else if code == 80 {
            Some(Region::KyivCity)
        } else if code == 85 {
            Some(Region::SevastopolCity)
        } else {
            None
        }
    }

    /// The registry code of this region.
    pub fn code(self) -> (c: u32)
        ensures
            c == self.spec_code(),
    {
        match self {
            Region::RepublicOfCrimea => 1,
            Region::VinnytsiaOblast => 5,
            Region::VolynOblast => 7,
            Region::DnipropetrovskOblast => 12,
            Region::DonetskOblast => 14,
            Region::ZhytomyrOblast => 18,
            Region::ZakarpattiaOblast => 21,
            Region::ZaporizhzhiaOblast => 23,
            Region::IvanoFrankivskOblast => 26,
            Region::KyivOblast => 32,
            Region::KirovohradOblast => 35,
            Region::LuhanskOblast => 44,
            Region::LvivOblast => 46,
            Region::MykolaivOblast => 48,
            Region::OdesaOblast => 51,
            Region::PoltavaOblast => 53,
            Region::RivneOblast => 56,
            Region::SumyOblast => 59,
            Region::TernopilOblast => 61,
            Region::KharkivOblast => 63,
            Region::KhersonOblast => 65,
            Region::KhmelnytskyiOblast => 68,
            Region::CherkasyOblast => 71,
            Region::ChernivtsiOblast => 73,
            Region::ChernihivOblast => 74,
            Region::KyivCity => 80,
            Region::SevastopolCity => 85,
        }
    }

    /// Decodes a registry code back into a region.
    pub fn from_code(code: u32) -> (r: Option<Region>)
        ensures
            r == Region::spec_from_code(code),
    {
        match code {
            1 => Some(Region::RepublicOfCrimea),
            5 => Some(Region::VinnytsiaOblast),
            7 => Some(Region::VolynOblast),
            12 => Some(Region::DnipropetrovskOblast),
            14 => Some(Region::DonetskOblast),
            18 => Some(Region::ZhytomyrOblast),
            21 => Some(Region::ZakarpattiaOblast),
            23 => Some(Region::ZaporizhzhiaOblast),
            26 => Some(Region::IvanoFrankivskOblast),
            32 => Some(Region::KyivOblast),
            35 => Some(Region::KirovohradOblast),
            44 => Some(Region::LuhanskOblast),
            46 => Some(Region::LvivOblast),
            48 => Some(Region::MykolaivOblast),
            51 => Some(Region::OdesaOblast),
            53 => Some(Region::PoltavaOblast),
            56 => Some(Region::RivneOblast),
            59 => Some(Region::SumyOblast),
            61 => Some(Region::TernopilOblast),
            63 => Some(Region::KharkivOblast),
            65 => Some(Region::KhersonOblast),
            68 => Some(Region::KhmelnytskyiOblast),
            71 => Some(Region::CherkasyOblast),
            73 => Some(Region::ChernivtsiOblast),
            74 => Some(Region::ChernihivOblast),
            80 => Some(Region::KyivCity),
            85 => Some(Region::SevastopolCity),
            _ => None,
        }
    }

    /// Renders this region for a URL: exactly the decimal digits of its
    /// code, with no padding.
    pub fn render(self) -> (s: String)
        ensures
            s@ == dec_digits(self.spec_code() as nat),
    {
        u32_dec(self.code())
    }

    /// Encodes this region as JSON: the bare integer code, never the
    /// variant name.
    pub fn to_json(self) -> (v: serde_json::Value)
        ensures
            json_model(v) == JsonData::Number(dec_digits(self.spec_code() as nat)),
    {
        js_u64_value(self.code() as u64)
    }

    /// Decodes a JSON value into a region: exactly the integer codes of
    /// the variants are accepted, so decoding an encoded region yields it
    /// back.
    pub fn from_json(v: &serde_json::Value) -> (r: Option<Region>)
        ensures
            r matches Some(region) ==> json_model(*v) == JsonData::Number(
                dec_digits(region.spec_code() as nat),
            ),
            forall|region: Region|
                json_model(*v) == JsonData::Number(dec_digits(region.spec_code() as nat))
                    ==> r == Some(region),
    {
        let code = match js_as_u64(v) {
            Some(n) => n,
            None => {
                proof {
                    assert forall|region: Region|
                        json_model(*v) != JsonData::Number(
                            dec_digits(region.spec_code() as nat),
                        ) by {
                        assert(dec_digits(region.spec_code() as nat) == dec_digits(
                            (region.spec_code() as u64) as nat,
                        ));
                    }
                }
                return None;
            },
        };
        if code > 0xFFFF_FFFFu64 {
            proof {
                assert forall|region: Region|
                    json_model(*v) != JsonData::Number(
                        dec_digits(region.spec_code() as nat),
                    ) by {
                    assert(dec_digits(region.spec_code() as nat) == dec_digits(
                        (region.spec_code() as u64) as nat,
                    ));
                }
            }
            return None;
        }
        let r = Region::from_code(code as u32);
        proof {
            assert forall|region: Region|
                json_model(*v) == JsonData::Number(dec_digits(region.spec_code() as nat))
                    implies r == Some(region) by {
                assert(dec_digits(region.spec_code() as nat) == dec_digits(
                    (region.spec_code() as u64) as nat,
                ));
                lemma_region_code_round_trip(region);
            }
            if r matches Some(region) {
                lemma_region_code_injective(code as u32);
            }
        }
        r
    }
}

/// Encoding a region as its code and decoding that code yields the region
/// back.
pub proof fn lemma_region_code_round_trip(r: Region)
    ensures
        Region::spec_from_code(r.spec_code()) == Some(r),
{
}

/// A code that decodes to a region is exactly that region's code.
pub proof fn lemma_region_code_injective(code: u32)
    ensures
        Region::spec_from_code(code) matches Some(r) ==> r.spec_code() == code,
{
}

} // verus!
