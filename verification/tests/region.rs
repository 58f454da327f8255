use flytrap::region::{City, Location, Region, RegionCode, RegionError};

#[test]
fn region_details() {
    let ord = Region::Chicago;

    assert_eq!("Chicago, Illinois (US)", ord.details().name);
}

#[test]
fn unpack() {
    let cdg = Region::Paris;
    let City { name, country, .. } = cdg.details().city;

    assert_eq!("Paris", name);
    assert_eq!("FR", country);
}

#[test]
fn ordering() {
    let mut regions = [
        Region::Bucharest,
        Region::Chicago,
        Region::HongKong,
        Region::Johannesburg,
        Region::LosAngeles,
        Region::Madrid,
        Region::Santiago,
        Region::Tokyo,
    ];
    regions.sort();

    assert_eq!(
        [
            Region::LosAngeles,
            Region::Chicago,
            Region::Santiago,
            Region::Madrid,
            Region::Bucharest,
            Region::Johannesburg,
            Region::HongKong,
            Region::Tokyo,
        ],
        regions
    );
}

#[test]
fn region_order_agrees_with_precedes() {
    assert!(Region::Seattle.precedes(&Region::Sydney));
    assert!(!Region::Sydney.precedes(&Region::Seattle));
    assert!(!Region::Paris.precedes(&Region::Paris));
    assert!(Region::Seattle < Region::Sydney);
    assert_eq!(Region::Seattle.rank(), 0);
    assert_eq!(Region::Sydney.rank(), 35);
}

#[test]
fn region_coordinates() {
    let ams = Region::Amsterdam.details();
    assert_eq!(ams.city.latitude, 52_374_342);
    assert_eq!(ams.city.longitude, 4_895_439);
    assert_eq!(Region::Santiago.latitude(), -33_365_720);
    assert_eq!(Region::Santiago.longitude(), -70_642_920);
}

#[test]
fn region_parses_its_code() {
    assert_eq!(Region::parse("ams"), Ok(Region::Amsterdam));
    assert_eq!(Region::parse("nrt"), Ok(Region::Tokyo));
    assert_eq!("ord".parse::<Region>(), Ok(Region::Chicago));
    assert_eq!(Region::Chicago.code(), "ord");
    assert_eq!(Region::Chicago.packed(), 0x6f726400);
    assert_eq!(Region::from_packed(0x6f726400), Some(Region::Chicago));
    assert_eq!(Region::from_packed(0x6f726401), None);
}

#[test]
fn region_rejects_what_is_no_code() {
    assert_eq!(Region::parse("xyz"), Err(RegionError::Unrecognized));
    assert_eq!(Region::parse(""), Err(RegionError::Unrecognized));
    assert_eq!(Region::parse("amsterdam"), Err(RegionError::Unrecognized));
    assert_eq!(Region::parse("AMS"), Err(RegionError::Unrecognized));
}

#[test]
fn region_code_is_three_lower_case_letters() {
    assert!(RegionCode::valid("xyz"));
    assert!(RegionCode::valid("ams"));
    assert!(!RegionCode::valid("xy"));
    assert!(!RegionCode::valid("wxyz"));
    assert!(!RegionCode::valid("xyZ"));
    assert!(!RegionCode::valid("x1z"));
    assert!(!RegionCode::valid("é"));
    assert_eq!(
        RegionCode::parse("xyz"),
        Ok(RegionCode { first: b'x', second: b'y', third: b'z' })
    );
    assert_eq!(RegionCode::parse("XYZ"), Err(RegionError::Invalid));
}

#[test]
fn location_is_a_region_or_a_bare_code() {
    assert_eq!(Location::parse("sin"), Ok(Location::Region(Region::Singapore)));
    assert_eq!(
        "xyz".parse::<Location>(),
        Ok(Location::Unknown(RegionCode { first: b'x', second: b'y', third: b'z' }))
    );
    assert_eq!(Location::parse("nowhere"), Err(RegionError::Invalid));
    assert_eq!(Location::parse("sin").unwrap().region(), Some(Region::Singapore));
    assert_eq!(Location::parse("xyz").unwrap().region(), None);
}

#[test]
fn location_as_text() {
    assert_eq!(Location::parse("sin").unwrap().to_string(), "sin");
    assert_eq!(Location::parse("xyz").unwrap().to_string(), "xyz");
    assert_eq!(RegionCode::parse("abc").unwrap().to_string(), "abc");
}

fn all_regions() -> Vec<Region> {
    let mut regions = Vec::new();
    for a in b'a'..=b'z' {
        for b in b'a'..=b'z' {
            for c in b'a'..=b'z' {
                let code = u32::from_be_bytes([a, b, c, 0]);
                if let Some(region) = Region::from_packed(code) {
                    regions.push(region);
                }
            }
        }
    }
    regions
}

#[test]
fn every_region_reads_its_own_code() {
    let regions = all_regions();
    assert_eq!(regions.len(), 36);
    for region in regions {
        assert_eq!(Region::from_packed(region.packed()), Some(region));
        assert_eq!(Region::parse(region.code()), Ok(region));
        assert_eq!(region.details().code, region.code());
        assert_eq!(region.code().as_bytes(), &region.packed().to_be_bytes()[..3]);
        assert_eq!(region.details().city.longitude, region.longitude());
        assert_eq!(region.details().city.latitude, region.latitude());
    }
}

#[test]
fn the_derived_order_is_the_rank() {
    let mut regions = all_regions();
    regions.sort();
    for (place, region) in regions.iter().enumerate() {
        assert_eq!(usize::from(region.rank()), place);
    }
    for pair in regions.windows(2) {
        assert!(pair[0].precedes(&pair[1]));
        assert!(
            (pair[0].longitude(), pair[0].latitude()) < (pair[1].longitude(), pair[1].latitude())
        );
    }
}
