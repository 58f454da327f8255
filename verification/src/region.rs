//! Regions: the places where machines run, each with a three-letter code,
//! a name, and the city it lies in.
//!
//! Coordinates are whole millionths of a degree. Regions are declared from
//! west to east, so the derived order is the geographic one: by longitude,
//! then latitude, then code.

use std::str::FromStr;
use vstd::prelude::*;
use vstd::string::StringSliceAdditionalSpecFns;

verus! {

/// Why a text is no region.
#[derive(PartialEq, Eq, Structural, Copy, Clone, Debug)]
pub enum RegionError {
    /// The text is not three lower-case letters.
    Invalid,
    /// The text is the code of no known region.
    Unrecognized,
}

/// The city that a region lies in.
#[derive(PartialEq, Eq, Copy, Clone, Debug)]
pub struct City {
    pub name: &'static str,
    pub country: &'static str,
    /// Millionths of a degree east of Greenwich.
    pub longitude: i32,
    /// Millionths of a degree north of the equator.
    pub latitude: i32,
}

/// What is known of a region.
#[derive(PartialEq, Eq, Copy, Clone, Debug)]
pub struct RegionDetails {
    pub code: &'static str,
    pub name: &'static str,
    pub city: City,
}

/// Three bytes as one number: the first byte weighs most, and the lowest
/// eight bits are zero.
pub open spec fn pack(bytes: Seq<u8>) -> u32 {
    (bytes[0] * 0x100_0000 + bytes[1] * 0x1_0000 + bytes[2] * 0x100) as u32
}

/// A region, by its place in the order from west to east.
#[derive(PartialEq, Eq, Structural, PartialOrd, Ord, Hash, Copy, Clone, Debug)]
pub enum Region {
    /// The _Seattle, Washington (US)_ Fly.io region (`sea`).
    Seattle,
    /// The _San Jose, California (US)_ Fly.io region (`sjc`).
    SanJose,
    /// The _Los Angeles, California (US)_ Fly.io region (`lax`).
    LosAngeles,
    /// The _Phoenix, Arizona (US)_ Fly.io region (`phx`).
    Phoenix,
    /// The _Denver, Colorado (US)_ Fly.io region (`den`).
    Denver,
    /// The _Guadalajara, Mexico_ Fly.io region (`gdl`).
    Guadalajara,
    /// The _Querétaro, Mexico_ Fly.io region (`qro`).
    Queretaro,
    /// The _Dallas, Texas (US)_ Fly.io region (`dfw`).
    Dallas,
    /// The _Chicago, Illinois (US)_ Fly.io region (`ord`).
    Chicago,
    /// The _Atlanta, Georgia (US)_ Fly.io region (`atl`).
    Atlanta,
    /// The _Miami, Florida (US)_ Fly.io region (`mia`).
    Miami,
    /// The _Toronto, Canada_ Fly.io region (`yyz`).
    Toronto,
    /// The _Ashburn, Virginia (US)_ Fly.io region (`iad`).
    Ashburn,
    /// The _Bogotá, Colombia_ Fly.io region (`bog`).
    Bogota,
    /// The _Secaucus, NJ (US)_ Fly.io region (`ewr`).
    Secaucus,
    /// The _Montreal, Canada_ Fly.io region (`yul`).
    Montreal,
    /// The _Boston, Massachusetts (US)_ Fly.io region (`bos`).
    Boston,
    /// The _Santiago, Chile_ Fly.io region (`scl`).
    Santiago,
    /// The _Ezeiza, Argentina_ Fly.io region (`eze`).
    Ezeiza,
    /// The _Sao Paulo, Brazil_ Fly.io region (`gru`).
    SaoPaulo,
    /// The _Rio de Janeiro, Brazil_ Fly.io region (`gig`).
    RioDeJaneiro,
    /// The _Madrid, Spain_ Fly.io region (`mad`).
    Madrid,
    /// The _London, United Kingdom_ Fly.io region (`lhr`).
    London,
    /// The _Paris, France_ Fly.io region (`cdg`).
    Paris,
    /// The _Amsterdam, Netherlands_ Fly.io region (`ams`).
    Amsterdam,
    /// The _Frankfurt, Germany_ Fly.io region (`fra`).
    Frankfurt,
    /// The _Stockholm, Sweden_ Fly.io region (`arn`).
    Stockholm,
    /// The _Warsaw, Poland_ Fly.io region (`waw`).
    Warsaw,
    /// The _Bucharest, Romania_ Fly.io region (`otp`).
    Bucharest,
    /// The _Johannesburg, South Africa_ Fly.io region (`jnb`).
    Johannesburg,
    /// The _Mumbai, India_ Fly.io region (`bom`).
    Mumbai,
    /// The _Chennai (Madras), India_ Fly.io region (`maa`).
    Chennai,
    /// The _Singapore, Singapore_ Fly.io region (`sin`).
    Singapore,
    /// The _Hong Kong, Hong Kong_ Fly.io region (`hkg`).
    HongKong,
    /// The _Tokyo, Japan_ Fly.io region (`nrt`).
    Tokyo,
    /// The _Sydney, Australia_ Fly.io region (`syd`).
    Sydney,
}

/// The region whose code, packed, is `code`.
pub open spec fn region_of(code: u32) -> Option<Region> {
    if code == 0x73656100 {
        Some(Region::Seattle)
    } else if code == 0x736a6300 {
        Some(Region::SanJose)
    } else if code == 0x6c617800 {
        Some(Region::LosAngeles)
    } else if code == 0x70687800 {
        Some(Region::Phoenix)
    } else if code == 0x64656e00 {
        Some(Region::Denver)
    } else if code == 0x67646c00 {
        Some(Region::Guadalajara)
    } else if code == 0x71726f00 {
        Some(Region::Queretaro)
    } else if code == 0x64667700 {
        Some(Region::Dallas)
    } else if code == 0x6f726400 {
        Some(Region::Chicago)
    } else if code == 0x61746c00 {
        Some(Region::Atlanta)
    } else if code == 0x6d696100 {
        Some(Region::Miami)
    } else if code == 0x79797a00 {
        Some(Region::Toronto)
    } else if code == 0x69616400 {
        Some(Region::Ashburn)
    } else if code == 0x626f6700 {
        Some(Region::Bogota)
    } else if code == 0x65777200 {
        Some(Region::Secaucus)
    } else if code == 0x79756c00 {
        Some(Region::Montreal)
    } else if code == 0x626f7300 {
        Some(Region::Boston)
    } else if code == 0x73636c00 {
        Some(Region::Santiago)
    } else if code == 0x657a6500 {
        Some(Region::Ezeiza)
    } else if code == 0x67727500 {
        Some(Region::SaoPaulo)
    } else if code == 0x67696700 {
        Some(Region::RioDeJaneiro)
    } else if code == 0x6d616400 {
        Some(Region::Madrid)
    } else if code == 0x6c687200 {
        Some(Region::London)
    } else if code == 0x63646700 {
        Some(Region::Paris)
    } else if code == 0x616d7300 {
        Some(Region::Amsterdam)
    } else if code == 0x66726100 {
        Some(Region::Frankfurt)
    } else if code == 0x61726e00 {
        Some(Region::Stockholm)
    } else if code == 0x77617700 {
        Some(Region::Warsaw)
    } else if code == 0x6f747000 {
        Some(Region::Bucharest)
    } else if code == 0x6a6e6200 {
        Some(Region::Johannesburg)
    } else if code == 0x626f6d00 {
        Some(Region::Mumbai)
    } else if code == 0x6d616100 {
        Some(Region::Chennai)
    } else if code == 0x73696e00 {
        Some(Region::Singapore)
    } else if code == 0x686b6700 {
        Some(Region::HongKong)
    } else if code == 0x6e727400 {
        Some(Region::Tokyo)
    } else if code == 0x73796400 {
        Some(Region::Sydney)
    } else {
        None
    }
}

/// The region that a text names: the one whose code the text is.
pub open spec fn parsed_region(text: Seq<u8>) -> Result<Region, RegionError> {
    if text.len() != 3 {
        Err(RegionError::Unrecognized)
    } else {
        match region_of(pack(text)) {
            Some(region) => Ok(region),
            None => Err(RegionError::Unrecognized),
        }
    }
}

impl Region {
    /// The code of the region, packed: see [`pack`].
    pub open spec fn spec_packed(self) -> u32 {
        match self {
            Region::Seattle => 0x73656100,
            Region::SanJose => 0x736a6300,
            Region::LosAngeles => 0x6c617800,
            Region::Phoenix => 0x70687800,
            Region::Denver => 0x64656e00,
            Region::Guadalajara => 0x67646c00,
            Region::Queretaro => 0x71726f00,
            Region::Dallas => 0x64667700,
            Region::Chicago => 0x6f726400,
            Region::Atlanta => 0x61746c00,
            Region::Miami => 0x6d696100,
            Region::Toronto => 0x79797a00,
            Region::Ashburn => 0x69616400,
            Region::Bogota => 0x626f6700,
            Region::Secaucus => 0x65777200,
            Region::Montreal => 0x79756c00,
            Region::Boston => 0x626f7300,
            Region::Santiago => 0x73636c00,
            Region::Ezeiza => 0x657a6500,
            Region::SaoPaulo => 0x67727500,
            Region::RioDeJaneiro => 0x67696700,
            Region::Madrid => 0x6d616400,
            Region::London => 0x6c687200,
            Region::Paris => 0x63646700,
            Region::Amsterdam => 0x616d7300,
            Region::Frankfurt => 0x66726100,
            Region::Stockholm => 0x61726e00,
            Region::Warsaw => 0x77617700,
            Region::Bucharest => 0x6f747000,
            Region::Johannesburg => 0x6a6e6200,
            Region::Mumbai => 0x626f6d00,
            Region::Chennai => 0x6d616100,
            Region::Singapore => 0x73696e00,
            Region::HongKong => 0x686b6700,
            Region::Tokyo => 0x6e727400,
            Region::Sydney => 0x73796400,
        }
    }

    /// The code of the region, packed: see [`pack`].
    pub fn packed(&self) -> (code: u32)
        ensures
            code == self.spec_packed(),
    {
        match self {
            Region::Seattle => 0x73656100,
            Region::SanJose => 0x736a6300,
            Region::LosAngeles => 0x6c617800,
            Region::Phoenix => 0x70687800,
            Region::Denver => 0x64656e00,
            Region::Guadalajara => 0x67646c00,
            Region::Queretaro => 0x71726f00,
            Region::Dallas => 0x64667700,
            Region::Chicago => 0x6f726400,
            Region::Atlanta => 0x61746c00,
            Region::Miami => 0x6d696100,
            Region::Toronto => 0x79797a00,
            Region::Ashburn => 0x69616400,
            Region::Bogota => 0x626f6700,
            Region::Secaucus => 0x65777200,
            Region::Montreal => 0x79756c00,
            Region::Boston => 0x626f7300,
            Region::Santiago => 0x73636c00,
            Region::Ezeiza => 0x657a6500,
            Region::SaoPaulo => 0x67727500,
            Region::RioDeJaneiro => 0x67696700,
            Region::Madrid => 0x6d616400,
            Region::London => 0x6c687200,
            Region::Paris => 0x63646700,
            Region::Amsterdam => 0x616d7300,
            Region::Frankfurt => 0x66726100,
            Region::Stockholm => 0x61726e00,
            Region::Warsaw => 0x77617700,
            Region::Bucharest => 0x6f747000,
            Region::Johannesburg => 0x6a6e6200,
            Region::Mumbai => 0x626f6d00,
            Region::Chennai => 0x6d616100,
            Region::Singapore => 0x73696e00,
            Region::HongKong => 0x686b6700,
            Region::Tokyo => 0x6e727400,
            Region::Sydney => 0x73796400,
        }
    }

    /// The place of the region in the order from west to east, from 0.
    pub open spec fn spec_rank(self) -> nat {
        match self {
            Region::Seattle => 0,
            Region::SanJose => 1,
            Region::LosAngeles => 2,
            Region::Phoenix => 3,
            Region::Denver => 4,
            Region::Guadalajara => 5,
            Region::Queretaro => 6,
            Region::Dallas => 7,
            Region::Chicago => 8,
            Region::Atlanta => 9,
            Region::Miami => 10,
            Region::Toronto => 11,
            Region::Ashburn => 12,
            Region::Bogota => 13,
            Region::Secaucus => 14,
            Region::Montreal => 15,
            Region::Boston => 16,
            Region::Santiago => 17,
            Region::Ezeiza => 18,
            Region::SaoPaulo => 19,
            Region::RioDeJaneiro => 20,
            Region::Madrid => 21,
            Region::London => 22,
            Region::Paris => 23,
            Region::Amsterdam => 24,
            Region::Frankfurt => 25,
            Region::Stockholm => 26,
            Region::Warsaw => 27,
            Region::Bucharest => 28,
            Region::Johannesburg => 29,
            Region::Mumbai => 30,
            Region::Chennai => 31,
            Region::Singapore => 32,
            Region::HongKong => 33,
            Region::Tokyo => 34,
            Region::Sydney => 35,
        }
    }

    /// The place of the region in the order from west to east, from 0.
    pub fn rank(&self) -> (rank: u8)
        ensures
            rank == self.spec_rank(),
    {
        match self {
            Region::Seattle => 0,
            Region::SanJose => 1,
            Region::LosAngeles => 2,
            Region::Phoenix => 3,
            Region::Denver => 4,
            Region::Guadalajara => 5,
            Region::Queretaro => 6,
            Region::Dallas => 7,
            Region::Chicago => 8,
            Region::Atlanta => 9,
            Region::Miami => 10,
            Region::Toronto => 11,
            Region::Ashburn => 12,
            Region::Bogota => 13,
            Region::Secaucus => 14,
            Region::Montreal => 15,
            Region::Boston => 16,
            Region::Santiago => 17,
            Region::Ezeiza => 18,
            Region::SaoPaulo => 19,
            Region::RioDeJaneiro => 20,
            Region::Madrid => 21,
            Region::London => 22,
            Region::Paris => 23,
            Region::Amsterdam => 24,
            Region::Frankfurt => 25,
            Region::Stockholm => 26,
            Region::Warsaw => 27,
            Region::Bucharest => 28,
            Region::Johannesburg => 29,
            Region::Mumbai => 30,
            Region::Chennai => 31,
            Region::Singapore => 32,
            Region::HongKong => 33,
            Region::Tokyo => 34,
            Region::Sydney => 35,
        }
    }

    /// Millionths of a degree east of Greenwich.
    pub open spec fn spec_longitude(self) -> int {
        match self {
            Region::Seattle => -122333100,
            Region::SanJose => -121896740,
            Region::LosAngeles => -118408500,
            Region::Phoenix => -112009480,
            Region::Denver => -104984700,
            Region::Guadalajara => -103310900,
            Region::Queretaro => -100186300,
            Region::Dallas => -96798400,
            Region::Chicago => -87630390,
            Region::Atlanta => -84427700,
            Region::Miami => -80224100,
            Region::Toronto => -79384230,
            Region::Ashburn => -77462556,
            Region::Bogota => -74146900,
            Region::Secaucus => -74056530,
            Region::Montreal => -73755490,
            Region::Boston => -71022360,
            Region::Santiago => -70642920,
            Region::Ezeiza => -58535800,
            Region::SaoPaulo => -46654350,
            Region::RioDeJaneiro => -43250500,
            Region::Madrid => -3820000,
            Region::London => -125656,
            Region::Paris => 2353477,
            Region::Amsterdam => 4895439,
            Region::Frankfurt => 8683300,
            Region::Stockholm => 17917800,
            Region::Warsaw => 20967100,
            Region::Bucharest => 26103900,
            Region::Johannesburg => 28202980,
            Region::Mumbai => 72874245,
            Region::Chennai => 80253070,
            Region::Singapore => 103800000,
            Region::HongKong => 114203224,
            Region::Tokyo => 139741850,
            Region::Sydney => 151206930,
        }
    }

    /// Millionths of a degree east of Greenwich.
    pub fn longitude(&self) -> (longitude: i32)
        ensures
            longitude == self.spec_longitude(),
    {
        match self {
            Region::Seattle => -122333100,
            Region::SanJose => -121896740,
            Region::LosAngeles => -118408500,
            Region::Phoenix => -112009480,
            Region::Denver => -104984700,
            Region::Guadalajara => -103310900,
            Region::Queretaro => -100186300,
            Region::Dallas => -96798400,
            Region::Chicago => -87630390,
            Region::Atlanta => -84427700,
            Region::Miami => -80224100,
            Region::Toronto => -79384230,
            Region::Ashburn => -77462556,
            Region::Bogota => -74146900,
            Region::Secaucus => -74056530,
            Region::Montreal => -73755490,
            Region::Boston => -71022360,
            Region::Santiago => -70642920,
            Region::Ezeiza => -58535800,
            Region::SaoPaulo => -46654350,
            Region::RioDeJaneiro => -43250500,
            Region::Madrid => -3820000,
            Region::London => -125656,
            Region::Paris => 2353477,
            Region::Amsterdam => 4895439,
            Region::Frankfurt => 8683300,
            Region::Stockholm => 17917800,
            Region::Warsaw => 20967100,
            Region::Bucharest => 26103900,
            Region::Johannesburg => 28202980,
            Region::Mumbai => 72874245,
            Region::Chennai => 80253070,
            Region::Singapore => 103800000,
            Region::HongKong => 114203224,
            Region::Tokyo => 139741850,
            Region::Sydney => 151206930,
        }
    }

    /// Millionths of a degree north of the equator.
    pub open spec fn spec_latitude(self) -> int {
        match self {
            Region::Seattle => 47609700,
            Region::SanJose => 37351600,
            Region::LosAngeles => 33941600,
            Region::Phoenix => 33416084,
            Region::Denver => 39739200,
            Region::Guadalajara => 20521700,
            Region::Queretaro => 20620000,
            Region::Dallas => 32778287,
            Region::Chicago => 41891544,
            Region::Atlanta => 33640700,
            Region::Miami => 25787700,
            Region::Toronto => 43644630,
            Region::Ashburn => 39022140,
            Region::Bogota => 4701590,
            Region::Secaucus => 40789543,
            Region::Montreal => 45486470,
            Region::Boston => 42366978,
            Region::Santiago => -33365720,
            Region::Ezeiza => -34822200,
            Region::SaoPaulo => -23549664,
            Region::RioDeJaneiro => -22809900,
            Region::Madrid => 40438100,
            Region::London => 51516434,
            Region::Paris => 48860875,
            Region::Amsterdam => 52374342,
            Region::Frankfurt => 50116700,
            Region::Stockholm => 59651200,
            Region::Warsaw => 52165700,
            Region::Bucharest => 44432500,
            Region::Johannesburg => -26136290,
            Region::Mumbai => 19097403,
            Region::Chennai => 13064429,
            Region::Singapore => 1300000,
            Region::HongKong => 22250970,
            Region::Tokyo => 35621610,
            Region::Sydney => -33866030,
        }
    }

    /// Millionths of a degree north of the equator.
    pub fn latitude(&self) -> (latitude: i32)
        ensures
            latitude == self.spec_latitude(),
    {
        match self {
            Region::Seattle => 47609700,
            Region::SanJose => 37351600,
            Region::LosAngeles => 33941600,
            Region::Phoenix => 33416084,
            Region::Denver => 39739200,
            Region::Guadalajara => 20521700,
            Region::Queretaro => 20620000,
            Region::Dallas => 32778287,
            Region::Chicago => 41891544,
            Region::Atlanta => 33640700,
            Region::Miami => 25787700,
            Region::Toronto => 43644630,
            Region::Ashburn => 39022140,
            Region::Bogota => 4701590,
            Region::Secaucus => 40789543,
            Region::Montreal => 45486470,
            Region::Boston => 42366978,
            Region::Santiago => -33365720,
            Region::Ezeiza => -34822200,
            Region::SaoPaulo => -23549664,
            Region::RioDeJaneiro => -22809900,
            Region::Madrid => 40438100,
            Region::London => 51516434,
            Region::Paris => 48860875,
            Region::Amsterdam => 52374342,
            Region::Frankfurt => 50116700,
            Region::Stockholm => 59651200,
            Region::Warsaw => 52165700,
            Region::Bucharest => 44432500,
            Region::Johannesburg => -26136290,
            Region::Mumbai => 19097403,
            Region::Chennai => 13064429,
            Region::Singapore => 1300000,
            Region::HongKong => 22250970,
            Region::Tokyo => 35621610,
            Region::Sydney => -33866030,
        }
    }

    /// The three-letter code of the region.
    pub open spec fn spec_code(self) -> Seq<char> {
        match self {
            Region::Seattle => "sea"@,
            Region::SanJose => "sjc"@,
            Region::LosAngeles => "lax"@,
            Region::Phoenix => "phx"@,
            Region::Denver => "den"@,
            Region::Guadalajara => "gdl"@,
            Region::Queretaro => "qro"@,
            Region::Dallas => "dfw"@,
            Region::Chicago => "ord"@,
            Region::Atlanta => "atl"@,
            Region::Miami => "mia"@,
            Region::Toronto => "yyz"@,
            Region::Ashburn => "iad"@,
            Region::Bogota => "bog"@,
            Region::Secaucus => "ewr"@,
            Region::Montreal => "yul"@,
            Region::Boston => "bos"@,
            Region::Santiago => "scl"@,
            Region::Ezeiza => "eze"@,
            Region::SaoPaulo => "gru"@,
            Region::RioDeJaneiro => "gig"@,
            Region::Madrid => "mad"@,
            Region::London => "lhr"@,
            Region::Paris => "cdg"@,
            Region::Amsterdam => "ams"@,
            Region::Frankfurt => "fra"@,
            Region::Stockholm => "arn"@,
            Region::Warsaw => "waw"@,
            Region::Bucharest => "otp"@,
            Region::Johannesburg => "jnb"@,
            Region::Mumbai => "bom"@,
            Region::Chennai => "maa"@,
            Region::Singapore => "sin"@,
            Region::HongKong => "hkg"@,
            Region::Tokyo => "nrt"@,
            Region::Sydney => "syd"@,
        }
    }

    /// The name of the region.
    pub open spec fn spec_name(self) -> Seq<char> {
        match self {
            Region::Seattle => "Seattle, Washington (US)"@,
            Region::SanJose => "San Jose, California (US)"@,
            Region::LosAngeles => "Los Angeles, California (US)"@,
            Region::Phoenix => "Phoenix, Arizona (US)"@,
            Region::Denver => "Denver, Colorado (US)"@,
            Region::Guadalajara => "Guadalajara, Mexico"@,
            Region::Queretaro => "Querétaro, Mexico"@,
            Region::Dallas => "Dallas, Texas (US)"@,
            Region::Chicago => "Chicago, Illinois (US)"@,
            Region::Atlanta => "Atlanta, Georgia (US)"@,
            Region::Miami => "Miami, Florida (US)"@,
            Region::Toronto => "Toronto, Canada"@,
            Region::Ashburn => "Ashburn, Virginia (US)"@,
            Region::Bogota => "Bogotá, Colombia"@,
            Region::Secaucus => "Secaucus, NJ (US)"@,
            Region::Montreal => "Montreal, Canada"@,
            Region::Boston => "Boston, Massachusetts (US)"@,
            Region::Santiago => "Santiago, Chile"@,
            Region::Ezeiza => "Ezeiza, Argentina"@,
            Region::SaoPaulo => "Sao Paulo, Brazil"@,
            Region::RioDeJaneiro => "Rio de Janeiro, Brazil"@,
            Region::Madrid => "Madrid, Spain"@,
            Region::London => "London, United Kingdom"@,
            Region::Paris => "Paris, France"@,
            Region::Amsterdam => "Amsterdam, Netherlands"@,
            Region::Frankfurt => "Frankfurt, Germany"@,
            Region::Stockholm => "Stockholm, Sweden"@,
            Region::Warsaw => "Warsaw, Poland"@,
            Region::Bucharest => "Bucharest, Romania"@,
            Region::Johannesburg => "Johannesburg, South Africa"@,
            Region::Mumbai => "Mumbai, India"@,
            Region::Chennai => "Chennai (Madras), India"@,
            Region::Singapore => "Singapore, Singapore"@,
            Region::HongKong => "Hong Kong, Hong Kong"@,
            Region::Tokyo => "Tokyo, Japan"@,
            Region::Sydney => "Sydney, Australia"@,
        }
    }

    /// The name of the city.
    pub open spec fn spec_city(self) -> Seq<char> {
        match self {
            Region::Seattle => "Seattle"@,
            Region::SanJose => "San Jose"@,
            Region::LosAngeles => "Los Angeles"@,
            Region::Phoenix => "Phoenix"@,
            Region::Denver => "Denver"@,
            Region::Guadalajara => "Guadalajara"@,
            Region::Queretaro => "Querétaro"@,
            Region::Dallas => "Dallas"@,
            Region::Chicago => "Chicago"@,
            Region::Atlanta => "Atlanta"@,
            Region::Miami => "Miami"@,
            Region::Toronto => "Toronto"@,
            Region::Ashburn => "Ashburn"@,
            Region::Bogota => "Bogotá"@,
            Region::Secaucus => "Secaucus"@,
            Region::Montreal => "Montreal"@,
            Region::Boston => "Boston"@,
            Region::Santiago => "Santiago"@,
            Region::Ezeiza => "Ezeiza"@,
            Region::SaoPaulo => "Sao Paulo"@,
            Region::RioDeJaneiro => "Rio de Janeiro"@,
            Region::Madrid => "Madrid"@,
            Region::London => "London"@,
            Region::Paris => "Paris"@,
            Region::Amsterdam => "Amsterdam"@,
            Region::Frankfurt => "Frankfurt"@,
            Region::Stockholm => "Stockholm"@,
            Region::Warsaw => "Warsaw"@,
            Region::Bucharest => "Bucharest"@,
            Region::Johannesburg => "Johannesburg"@,
            Region::Mumbai => "Mumbai"@,
            Region::Chennai => "Chennai"@,
            Region::Singapore => "Singapore"@,
            Region::HongKong => "Hong Kong"@,
            Region::Tokyo => "Tokyo"@,
            Region::Sydney => "Sydney"@,
        }
    }

    /// The two-letter code of the country.
    pub open spec fn spec_country(self) -> Seq<char> {
        match self {
            Region::Seattle => "US"@,
            Region::SanJose => "US"@,
            Region::LosAngeles => "US"@,
            Region::Phoenix => "US"@,
            Region::Denver => "US"@,
            Region::Guadalajara => "MX"@,
            Region::Queretaro => "MX"@,
            Region::Dallas => "US"@,
            Region::Chicago => "US"@,
            Region::Atlanta => "US"@,
            Region::Miami => "US"@,
            Region::Toronto => "CA"@,
            Region::Ashburn => "US"@,
            Region::Bogota => "CO"@,
            Region::Secaucus => "US"@,
            Region::Montreal => "CA"@,
            Region::Boston => "US"@,
            Region::Santiago => "CL"@,
            Region::Ezeiza => "AR"@,
            Region::SaoPaulo => "BR"@,
            Region::RioDeJaneiro => "BR"@,
            Region::Madrid => "ES"@,
            Region::London => "GB"@,
            Region::Paris => "FR"@,
            Region::Amsterdam => "NL"@,
            Region::Frankfurt => "DE"@,
            Region::Stockholm => "SE"@,
            Region::Warsaw => "PL"@,
            Region::Bucharest => "RO"@,
            Region::Johannesburg => "ZA"@,
            Region::Mumbai => "IN"@,
            Region::Chennai => "IN"@,
            Region::Singapore => "SG"@,
            Region::HongKong => "HK"@,
            Region::Tokyo => "JP"@,
            Region::Sydney => "AU"@,
        }
    }

    /// The known [details][RegionDetails] of the region.
    pub fn details(&self) -> (details: RegionDetails)
        ensures
            details.code@ == self.spec_code(),
            details.name@ == self.spec_name(),
            details.city.name@ == self.spec_city(),
            details.city.country@ == self.spec_country(),
            details.city.longitude == self.spec_longitude(),
            details.city.latitude == self.spec_latitude(),
    {
        match self {
            Region::Seattle => RegionDetails {
                code: "sea",
                name: "Seattle, Washington (US)",
                city: City {
                    name: "Seattle",
                    country: "US",
                    longitude: -122333100,
                    latitude: 47609700,
                },
            },
            Region::SanJose => RegionDetails {
                code: "sjc",
                name: "San Jose, California (US)",
                city: City {
                    name: "San Jose",
                    country: "US",
                    longitude: -121896740,
                    latitude: 37351600,
                },
            },
            Region::LosAngeles => RegionDetails {
                code: "lax",
                name: "Los Angeles, California (US)",
                city: City {
                    name: "Los Angeles",
                    country: "US",
                    longitude: -118408500,
                    latitude: 33941600,
                },
            },
            Region::Phoenix => RegionDetails {
                code: "phx",
                name: "Phoenix, Arizona (US)",
                city: City {
                    name: "Phoenix",
                    country: "US",
                    longitude: -112009480,
                    latitude: 33416084,
                },
            },
            Region::Denver => RegionDetails {
                code: "den",
                name: "Denver, Colorado (US)",
                city: City {
                    name: "Denver",
                    country: "US",
                    longitude: -104984700,
                    latitude: 39739200,
                },
            },
            Region::Guadalajara => RegionDetails {
                code: "gdl",
                name: "Guadalajara, Mexico",
                city: City {
                    name: "Guadalajara",
                    country: "MX",
                    longitude: -103310900,
                    latitude: 20521700,
                },
            },
            Region::Queretaro => RegionDetails {
                code: "qro",
                name: "Querétaro, Mexico",
                city: City {
                    name: "Querétaro",
                    country: "MX",
                    longitude: -100186300,
                    latitude: 20620000,
                },
            },
            Region::Dallas => RegionDetails {
                code: "dfw",
                name: "Dallas, Texas (US)",
                city: City {
                    name: "Dallas",
                    country: "US",
                    longitude: -96798400,
                    latitude: 32778287,
                },
            },
            Region::Chicago => RegionDetails {
                code: "ord",
                name: "Chicago, Illinois (US)",
                city: City {
                    name: "Chicago",
                    country: "US",
                    longitude: -87630390,
                    latitude: 41891544,
                },
            },
            Region::Atlanta => RegionDetails {
                code: "atl",
                name: "Atlanta, Georgia (US)",
                city: City {
                    name: "Atlanta",
                    country: "US",
                    longitude: -84427700,
                    latitude: 33640700,
                },
            },
            Region::Miami => RegionDetails {
                code: "mia",
                name: "Miami, Florida (US)",
                city: City {
                    name: "Miami",
                    country: "US",
                    longitude: -80224100,
                    latitude: 25787700,
                },
            },
            Region::Toronto => RegionDetails {
                code: "yyz",
                name: "Toronto, Canada",
                city: City {
                    name: "Toronto",
                    country: "CA",
                    longitude: -79384230,
                    latitude: 43644630,
                },
            },
            Region::Ashburn => RegionDetails {
                code: "iad",
                name: "Ashburn, Virginia (US)",
                city: City {
                    name: "Ashburn",
                    country: "US",
                    longitude: -77462556,
                    latitude: 39022140,
                },
            },
            Region::Bogota => RegionDetails {
                code: "bog",
                name: "Bogotá, Colombia",
                city: City {
                    name: "Bogotá",
                    country: "CO",
                    longitude: -74146900,
                    latitude: 4701590,
                },
            },
            Region::Secaucus => RegionDetails {
                code: "ewr",
                name: "Secaucus, NJ (US)",
                city: City {
                    name: "Secaucus",
                    country: "US",
                    longitude: -74056530,
                    latitude: 40789543,
                },
            },
            Region::Montreal => RegionDetails {
                code: "yul",
                name: "Montreal, Canada",
                city: City {
                    name: "Montreal",
                    country: "CA",
                    longitude: -73755490,
                    latitude: 45486470,
                },
            },
            Region::Boston => RegionDetails {
                code: "bos",
                name: "Boston, Massachusetts (US)",
                city: City {
                    name: "Boston",
                    country: "US",
                    longitude: -71022360,
                    latitude: 42366978,
                },
            },
            Region::Santiago => RegionDetails {
                code: "scl",
                name: "Santiago, Chile",
                city: City {
                    name: "Santiago",
                    country: "CL",
                    longitude: -70642920,
                    latitude: -33365720,
                },
            },
            Region::Ezeiza => RegionDetails {
                code: "eze",
                name: "Ezeiza, Argentina",
                city: City {
                    name: "Ezeiza",
                    country: "AR",
                    longitude: -58535800,
                    latitude: -34822200,
                },
            },
            Region::SaoPaulo => RegionDetails {
                code: "gru",
                name: "Sao Paulo, Brazil",
                city: City {
                    name: "Sao Paulo",
                    country: "BR",
                    longitude: -46654350,
                    latitude: -23549664,
                },
            },
            Region::RioDeJaneiro => RegionDetails {
                code: "gig",
                name: "Rio de Janeiro, Brazil",
                city: City {
                    name: "Rio de Janeiro",
                    country: "BR",
                    longitude: -43250500,
                    latitude: -22809900,
                },
            },
            Region::Madrid => RegionDetails {
                code: "mad",
                name: "Madrid, Spain",
                city: City {
                    name: "Madrid",
                    country: "ES",
                    longitude: -3820000,
                    latitude: 40438100,
                },
            },
            Region::London => RegionDetails {
                code: "lhr",
                name: "London, United Kingdom",
                city: City {
                    name: "London",
                    country: "GB",
                    longitude: -125656,
                    latitude: 51516434,
                },
            },
            Region::Paris => RegionDetails {
                code: "cdg",
                name: "Paris, France",
                city: City {
                    name: "Paris",
                    country: "FR",
                    longitude: 2353477,
                    latitude: 48860875,
                },
            },
            Region::Amsterdam => RegionDetails {
                code: "ams",
                name: "Amsterdam, Netherlands",
                city: City {
                    name: "Amsterdam",
                    country: "NL",
                    longitude: 4895439,
                    latitude: 52374342,
                },
            },
            Region::Frankfurt => RegionDetails {
                code: "fra",
                name: "Frankfurt, Germany",
                city: City {
                    name: "Frankfurt",
                    country: "DE",
                    longitude: 8683300,
                    latitude: 50116700,
                },
            },
            Region::Stockholm => RegionDetails {
                code: "arn",
                name: "Stockholm, Sweden",
                city: City {
                    name: "Stockholm",
                    country: "SE",
                    longitude: 17917800,
                    latitude: 59651200,
                },
            },
            Region::Warsaw => RegionDetails {
                code: "waw",
                name: "Warsaw, Poland",
                city: City {
                    name: "Warsaw",
                    country: "PL",
                    longitude: 20967100,
                    latitude: 52165700,
                },
            },
            Region::Bucharest => RegionDetails {
                code: "otp",
                name: "Bucharest, Romania",
                city: City {
                    name: "Bucharest",
                    country: "RO",
                    longitude: 26103900,
                    latitude: 44432500,
                },
            },
            Region::Johannesburg => RegionDetails {
                code: "jnb",
                name: "Johannesburg, South Africa",
                city: City {
                    name: "Johannesburg",
                    country: "ZA",
                    longitude: 28202980,
                    latitude: -26136290,
                },
            },
            Region::Mumbai => RegionDetails {
                code: "bom",
                name: "Mumbai, India",
                city: City {
                    name: "Mumbai",
                    country: "IN",
                    longitude: 72874245,
                    latitude: 19097403,
                },
            },
            Region::Chennai => RegionDetails {
                code: "maa",
                name: "Chennai (Madras), India",
                city: City {
                    name: "Chennai",
                    country: "IN",
                    longitude: 80253070,
                    latitude: 13064429,
                },
            },
            Region::Singapore => RegionDetails {
                code: "sin",
                name: "Singapore, Singapore",
                city: City {
                    name: "Singapore",
                    country: "SG",
                    longitude: 103800000,
                    latitude: 1300000,
                },
            },
            Region::HongKong => RegionDetails {
                code: "hkg",
                name: "Hong Kong, Hong Kong",
                city: City {
                    name: "Hong Kong",
                    country: "HK",
                    longitude: 114203224,
                    latitude: 22250970,
                },
            },
            Region::Tokyo => RegionDetails {
                code: "nrt",
                name: "Tokyo, Japan",
                city: City {
                    name: "Tokyo",
                    country: "JP",
                    longitude: 139741850,
                    latitude: 35621610,
                },
            },
            Region::Sydney => RegionDetails {
                code: "syd",
                name: "Sydney, Australia",
                city: City {
                    name: "Sydney",
                    country: "AU",
                    longitude: 151206930,
                    latitude: -33866030,
                },
            },
        }
    }

    /// The three-letter code of the region.
    pub fn code(&self) -> (code: &'static str)
        ensures
            code@ == self.spec_code(),
    {
        self.details().code
    }

    /// The region whose code, packed, is `code`.
    pub fn from_packed(code: u32) -> (region: Option<Region>)
        ensures
            region == region_of(code),
    {
        if code == 0x73656100 {
            Some(Region::Seattle)
        } else if code == 0x736a6300 {
            Some(Region::SanJose)
        } else if code == 0x6c617800 {
            Some(Region::LosAngeles)
        } else if code == 0x70687800 {
            Some(Region::Phoenix)
        } else if code == 0x64656e00 {
            Some(Region::Denver)
        } else if code == 0x67646c00 {
            Some(Region::Guadalajara)
        } else if code == 0x71726f00 {
            Some(Region::Queretaro)
        } else if code == 0x64667700 {
            Some(Region::Dallas)
        } else if code == 0x6f726400 {
            Some(Region::Chicago)
        } else if code == 0x61746c00 {
            Some(Region::Atlanta)
        } else if code == 0x6d696100 {
            Some(Region::Miami)
        } else if code == 0x79797a00 {
            Some(Region::Toronto)
        } else if code == 0x69616400 {
            Some(Region::Ashburn)
        } else if code == 0x626f6700 {
            Some(Region::Bogota)
        } else if code == 0x65777200 {
            Some(Region::Secaucus)
        } else if code == 0x79756c00 {
            Some(Region::Montreal)
        } else if code == 0x626f7300 {
            Some(Region::Boston)
        } else if code == 0x73636c00 {
            Some(Region::Santiago)
        } else if code == 0x657a6500 {
            Some(Region::Ezeiza)
        } else if code == 0x67727500 {
            Some(Region::SaoPaulo)
        } else if code == 0x67696700 {
            Some(Region::RioDeJaneiro)
        } else if code == 0x6d616400 {
            Some(Region::Madrid)
        } else if code == 0x6c687200 {
            Some(Region::London)
        } else if code == 0x63646700 {
            Some(Region::Paris)
        } else if code == 0x616d7300 {
            Some(Region::Amsterdam)
        } else if code == 0x66726100 {
            Some(Region::Frankfurt)
        } else if code == 0x61726e00 {
            Some(Region::Stockholm)
        } else if code == 0x77617700 {
            Some(Region::Warsaw)
        } else if code == 0x6f747000 {
            Some(Region::Bucharest)
        } else if code == 0x6a6e6200 {
            Some(Region::Johannesburg)
        } else if code == 0x626f6d00 {
            Some(Region::Mumbai)
        } else if code == 0x6d616100 {
            Some(Region::Chennai)
        } else if code == 0x73696e00 {
            Some(Region::Singapore)
        } else if code == 0x686b6700 {
            Some(Region::HongKong)
        } else if code == 0x6e727400 {
            Some(Region::Tokyo)
        } else if code == 0x73796400 {
            Some(Region::Sydney)
        } else {
            None
        }
    }

    /// Read a region from its three-letter code.
    pub fn parse(text: &str) -> (region: Result<Region, RegionError>)
        ensures
            region == parsed_region(text.spec_bytes()),
    {
        let bytes = text.as_bytes();
        if bytes.len() != 3 {
            return Err(RegionError::Unrecognized);
        }
        let code: u32 = (bytes[0] as u32) * 0x100_0000 + (bytes[1] as u32) * 0x1_0000 + (
        bytes[2] as u32) * 0x100;
        match Region::from_packed(code) {
            Some(region) => Ok(region),
            None => Err(RegionError::Unrecognized),
        }
    }

    /// Whether this region comes before `other` from west to east.
    pub fn precedes(&self, other: &Region) -> (before: bool)
        ensures
            before == geographic_lt(*self, *other),
    {
        proof {
            lemma_rank_is_geographic(*self, *other);
        }
        self.rank() < other.rank()
    }
}

impl FromStr for Region {
    type Err = RegionError;

    /// Read a region from its three-letter code, as [`Region::parse`] does.
    fn from_str(s: &str) -> (region: Result<Region, RegionError>)
        ensures
            region == parsed_region(s.spec_bytes()),
    {
        Region::parse(s)
    }
}

/// Whether `a` lies before `b` in the geographic order: further west, or as
/// far west and further south, or at the same place and earlier by its code.
pub open spec fn geographic_lt(a: Region, b: Region) -> bool {
    a.spec_longitude() < b.spec_longitude() || (a.spec_longitude() == b.spec_longitude() && (
    a.spec_latitude() < b.spec_latitude() || (a.spec_latitude() == b.spec_latitude()
        && a.spec_packed() < b.spec_packed())))
}

/// The order in which the regions are declared is the geographic one.
pub proof fn lemma_rank_is_geographic(a: Region, b: Region)
    ensures
        a.spec_rank() < b.spec_rank() <==> geographic_lt(a, b),
        a.spec_rank() == b.spec_rank() <==> a == b,
{
}

/// Every region is the one that its packed code names, and no two regions
/// have the same code.
pub proof fn lemma_region_of_packed(region: Region)
    ensures
        region_of(region.spec_packed()) == Some(region),
{
}

/// A packed code names a region only if it is that region's code.
pub proof fn lemma_packed_of_region(code: u32)
    ensures
        region_of(code) is Some ==> region_of(code).unwrap().spec_packed() == code,
{
}

/// The code of every region reads back as the region.
pub proof fn lemma_code_reads_back(region: Region)
    ensures
        parsed_region(vstd::utf8::encode_utf8(region.spec_code())) == Ok::<Region, RegionError>(
            region,
        ),
{
    match region {
        Region::Seattle => {
            reveal_strlit("sea");
            vstd::string::is_ascii_spec_bytes("sea");
            assert("sea".spec_bytes().len() == 3);
        },
        Region::SanJose => {
            reveal_strlit("sjc");
            vstd::string::is_ascii_spec_bytes("sjc");
            assert("sjc".spec_bytes().len() == 3);
        },
        Region::LosAngeles => {
            reveal_strlit("lax");
            vstd::string::is_ascii_spec_bytes("lax");
            assert("lax".spec_bytes().len() == 3);
        },
        Region::Phoenix => {
            reveal_strlit("phx");
            vstd::string::is_ascii_spec_bytes("phx");
            assert("phx".spec_bytes().len() == 3);
        },
        Region::Denver => {
            reveal_strlit("den");
            vstd::string::is_ascii_spec_bytes("den");
            assert("den".spec_bytes().len() == 3);
        },
        Region::Guadalajara => {
            reveal_strlit("gdl");
            vstd::string::is_ascii_spec_bytes("gdl");
            assert("gdl".spec_bytes().len() == 3);
        },
        Region::Queretaro => {
            reveal_strlit("qro");
            vstd::string::is_ascii_spec_bytes("qro");
            assert("qro".spec_bytes().len() == 3);
        },
        Region::Dallas => {
            reveal_strlit("dfw");
            vstd::string::is_ascii_spec_bytes("dfw");
            assert("dfw".spec_bytes().len() == 3);
        },
        Region::Chicago => {
            reveal_strlit("ord");
            vstd::string::is_ascii_spec_bytes("ord");
            assert("ord".spec_bytes().len() == 3);
        },
        Region::Atlanta => {
            reveal_strlit("atl");
            vstd::string::is_ascii_spec_bytes("atl");
            assert("atl".spec_bytes().len() == 3);
        },
        Region::Miami => {
            reveal_strlit("mia");
            vstd::string::is_ascii_spec_bytes("mia");
            assert("mia".spec_bytes().len() == 3);
        },
        Region::Toronto => {
            reveal_strlit("yyz");
            vstd::string::is_ascii_spec_bytes("yyz");
            assert("yyz".spec_bytes().len() == 3);
        },
        Region::Ashburn => {
            reveal_strlit("iad");
            vstd::string::is_ascii_spec_bytes("iad");
            assert("iad".spec_bytes().len() == 3);
        },
        Region::Bogota => {
            reveal_strlit("bog");
            vstd::string::is_ascii_spec_bytes("bog");
            assert("bog".spec_bytes().len() == 3);
        },
        Region::Secaucus => {
            reveal_strlit("ewr");
            vstd::string::is_ascii_spec_bytes("ewr");
            assert("ewr".spec_bytes().len() == 3);
        },
        Region::Montreal => {
            reveal_strlit("yul");
            vstd::string::is_ascii_spec_bytes("yul");
            assert("yul".spec_bytes().len() == 3);
        },
        Region::Boston => {
            reveal_strlit("bos");
            vstd::string::is_ascii_spec_bytes("bos");
            assert("bos".spec_bytes().len() == 3);
        },
        Region::Santiago => {
            reveal_strlit("scl");
            vstd::string::is_ascii_spec_bytes("scl");
            assert("scl".spec_bytes().len() == 3);
        },
        Region::Ezeiza => {
            reveal_strlit("eze");
            vstd::string::is_ascii_spec_bytes("eze");
            assert("eze".spec_bytes().len() == 3);
        },
        Region::SaoPaulo => {
            reveal_strlit("gru");
            vstd::string::is_ascii_spec_bytes("gru");
            assert("gru".spec_bytes().len() == 3);
        },
        Region::RioDeJaneiro => {
            reveal_strlit("gig");
            vstd::string::is_ascii_spec_bytes("gig");
            assert("gig".spec_bytes().len() == 3);
        },
        Region::Madrid => {
            reveal_strlit("mad");
            vstd::string::is_ascii_spec_bytes("mad");
            assert("mad".spec_bytes().len() == 3);
        },
        Region::London => {
            reveal_strlit("lhr");
            vstd::string::is_ascii_spec_bytes("lhr");
            assert("lhr".spec_bytes().len() == 3);
        },
        Region::Paris => {
            reveal_strlit("cdg");
            vstd::string::is_ascii_spec_bytes("cdg");
            assert("cdg".spec_bytes().len() == 3);
        },
        Region::Amsterdam => {
            reveal_strlit("ams");
            vstd::string::is_ascii_spec_bytes("ams");
            assert("ams".spec_bytes().len() == 3);
        },
        Region::Frankfurt => {
            reveal_strlit("fra");
            vstd::string::is_ascii_spec_bytes("fra");
            assert("fra".spec_bytes().len() == 3);
        },
        Region::Stockholm => {
            reveal_strlit("arn");
            vstd::string::is_ascii_spec_bytes("arn");
            assert("arn".spec_bytes().len() == 3);
        },
        Region::Warsaw => {
            reveal_strlit("waw");
            vstd::string::is_ascii_spec_bytes("waw");
            assert("waw".spec_bytes().len() == 3);
        },
        Region::Bucharest => {
            reveal_strlit("otp");
            vstd::string::is_ascii_spec_bytes("otp");
            assert("otp".spec_bytes().len() == 3);
        },
        Region::Johannesburg => {
            reveal_strlit("jnb");
            vstd::string::is_ascii_spec_bytes("jnb");
            assert("jnb".spec_bytes().len() == 3);
        },
        Region::Mumbai => {
            reveal_strlit("bom");
            vstd::string::is_ascii_spec_bytes("bom");
            assert("bom".spec_bytes().len() == 3);
        },
        Region::Chennai => {
            reveal_strlit("maa");
            vstd::string::is_ascii_spec_bytes("maa");
            assert("maa".spec_bytes().len() == 3);
        },
        Region::Singapore => {
            reveal_strlit("sin");
            vstd::string::is_ascii_spec_bytes("sin");
            assert("sin".spec_bytes().len() == 3);
        },
        Region::HongKong => {
            reveal_strlit("hkg");
            vstd::string::is_ascii_spec_bytes("hkg");
            assert("hkg".spec_bytes().len() == 3);
        },
        Region::Tokyo => {
            reveal_strlit("nrt");
            vstd::string::is_ascii_spec_bytes("nrt");
            assert("nrt".spec_bytes().len() == 3);
        },
        Region::Sydney => {
            reveal_strlit("syd");
            vstd::string::is_ascii_spec_bytes("syd");
            assert("syd".spec_bytes().len() == 3);
        },
    }
}

/// A region code that is not known: three lower-case letters.
#[derive(PartialEq, Eq, Structural, PartialOrd, Ord, Hash, Copy, Clone, Debug)]
pub struct RegionCode {
    pub first: u8,
    pub second: u8,
    pub third: u8,
}

/// Whether a byte is a lower-case letter.
pub open spec fn is_lower(byte: u8) -> bool {
    0x61 <= byte <= 0x7a
}

/// Whether a text passes for a region code: three lower-case letters.
pub open spec fn valid_code(text: Seq<u8>) -> bool {
    text.len() == 3 && is_lower(text[0]) && is_lower(text[1]) && is_lower(text[2])
}

/// `format!` of three bytes as characters: the text of three characters
/// whose code points are the bytes.
#[verifier::external_body]
fn format_code(first: u8, second: u8, third: u8) -> (text: String)
    ensures
        text@ == seq![first as char, second as char, third as char],
{
    format!("{}{}{}", first as char, second as char, third as char)
}

impl RegionCode {
    /// The code as text.
    pub fn to_string(&self) -> (text: String)
        ensures
            text@ == seq![self.first as char, self.second as char, self.third as char],
    {
        format_code(self.first, self.second, self.third)
    }

    /// Checks if the `input` passes for a region code: three lower-case letters.
    pub fn valid(input: &str) -> (valid: bool)
        ensures
            valid == valid_code(input.spec_bytes()),
    {
        let bytes = input.as_bytes();
        bytes.len() == 3 && 0x61 <= bytes[0] && bytes[0] <= 0x7a && 0x61 <= bytes[1] && bytes[1]
            <= 0x7a && 0x61 <= bytes[2] && bytes[2] <= 0x7a
    }

    /// Read a region code: three lower-case letters.
    pub fn parse(text: &str) -> (code: Result<RegionCode, RegionError>)
        ensures
            code == parsed_code(text.spec_bytes()),
    {
        if RegionCode::valid(text) {
            let bytes = text.as_bytes();
            Ok(RegionCode { first: bytes[0], second: bytes[1], third: bytes[2] })
        } else {
            Err(RegionError::Invalid)
        }
    }
}

/// The region code that a text is.
pub open spec fn parsed_code(text: Seq<u8>) -> Result<RegionCode, RegionError> {
    if valid_code(text) {
        Ok(RegionCode { first: text[0], second: text[1], third: text[2] })
    } else {
        Err(RegionError::Invalid)
    }
}

/// A place where machines run: a known region, or the bare code of one that
/// is not known.
#[derive(PartialEq, Eq, Structural, Copy, Clone, Debug)]
pub enum Location {
    Region(Region),
    Unknown(RegionCode),
}

/// The location that a text names: the region whose code it is, else the
/// text as a bare code, if it is three lower-case letters.
pub open spec fn parsed_location(text: Seq<u8>) -> Result<Location, RegionError> {
    match parsed_region(text) {
        Ok(region) => Ok(Location::Region(region)),
        Err(_) => match parsed_code(text) {
            Ok(code) => Ok(Location::Unknown(code)),
            Err(_) => Err(RegionError::Invalid),
        },
    }
}

impl Location {
    /// Read a location from a three-letter code.
    pub fn parse(text: &str) -> (location: Result<Location, RegionError>)
        ensures
            location == parsed_location(text.spec_bytes()),
    {
        match Region::parse(text) {
            Ok(region) => Ok(Location::Region(region)),
            Err(_) => match RegionCode::parse(text) {
                Ok(code) => Ok(Location::Unknown(code)),
                Err(_) => Err(RegionError::Invalid),
            },
        }
    }

    /// The code of the location as text.
    pub fn to_string(&self) -> (text: String)
        ensures
            text@ == (match *self {
                Location::Region(region) => region.spec_code(),
                Location::Unknown(code) => seq![
                    code.first as char,
                    code.second as char,
                    code.third as char,
                ],
            }),
    {
        match self {
            Location::Region(region) => region.code().to_owned(),
            Location::Unknown(code) => code.to_string(),
        }
    }

    /// The region, if the location is a known one.
    pub fn region(&self) -> (region: Option<Region>)
        ensures
            region == (match *self {
                Location::Region(region) => Some(region),
                Location::Unknown(_) => None,
            }),
    {
        match self {
            Location::Region(region) => Some(*region),
            Location::Unknown(_) => None,
        }
    }
}

impl FromStr for Location {
    type Err = RegionError;

    /// Read a location from a three-letter code, as [`Location::parse`] does.
    fn from_str(s: &str) -> (location: Result<Location, RegionError>)
        ensures
            location == parsed_location(s.spec_bytes()),
    {
        Location::parse(s)
    }
}

} // verus!
