use flytrap::error::Error;
use flytrap::record::{cut, field, find, same, split, starts_with};
use flytrap::region::{Location, Region};
use flytrap::resolver::{apps, nodes, regions, Node};

#[test]
fn split_at_every_separator() {
    assert_eq!(split("a,b,c", b','), vec!["a", "b", "c"]);
    assert_eq!(split("abc", b','), vec!["abc"]);
    assert_eq!(split("", b','), vec![""]);
    assert_eq!(split(",", b','), vec!["", ""]);
    assert_eq!(split("a,,b,", b','), vec!["a", "", "b", ""]);
    assert_eq!(split("ä;ö", b';'), vec!["ä", "ö"]);
}

#[test]
fn split_agrees_with_std() {
    for text in ["sea,ams,sin", ",,", "one", "", "a,b,", ",a"] {
        assert_eq!(split(text, b','), text.split(',').collect::<Vec<_>>());
    }
}

#[test]
fn find_the_first_byte() {
    assert_eq!(find(b"hello world", b' '), 5);
    assert_eq!(find(b"hello", b' '), 5);
    assert_eq!(find(b"", b' '), 0);
    assert_eq!(find(b"  ", b' '), 0);
}

#[test]
fn cut_drops_the_byte_between() {
    assert_eq!(cut("key=value", 3), ("key", "value"));
    assert_eq!(cut("=", 0), ("", ""));
    assert_eq!(cut("é=è", 2), ("é", "è"));
}

#[test]
fn starts_with_a_prefix() {
    assert!(starts_with(b"fly-builder-red-sun", b"fly-builder-"));
    assert!(starts_with(b"abc", b""));
    assert!(starts_with(b"abc", b"abc"));
    assert!(!starts_with(b"ab", b"abc"));
    assert!(!starts_with(b"abd", b"abc"));
}

#[test]
fn nodes_of_a_record() {
    assert_eq!(
        nodes("148e21dad76789 sea,4d89699c030518 ams"),
        Ok(vec![
            Node::new(Location::Region(Region::Seattle), "148e21dad76789".to_string()),
            Node::new(Location::Region(Region::Amsterdam), "4d89699c030518".to_string()),
        ])
    );
    assert_eq!(nodes("148e21dad76789 sea,4d89699c030518"), Err(Error::Parse));
    assert_eq!(nodes(""), Err(Error::Parse));
    assert_eq!(nodes("148e21dad76789 sea,"), Err(Error::Parse));
}

#[test]
fn regions_of_a_record() {
    assert_eq!(regions("sea,ams,sin"), vec![Region::Seattle, Region::Amsterdam, Region::Singapore]);
    assert_eq!(regions("sea,xyz,,nowhere,ord"), vec![Region::Seattle, Region::Chicago]);
    assert_eq!(regions(""), vec![]);
}

#[test]
fn apps_of_a_record() {
    assert_eq!(
        apps("flytrap,fly-builder-red-sun-1234,demo"),
        vec!["flytrap".to_string(), "demo".to_string()]
    );
    assert_eq!(apps("fly-builder-"), Vec::<String>::new());
    assert_eq!(apps("fly-builder"), vec!["fly-builder".to_string()]);
    assert_eq!(apps(""), vec!["".to_string()]);
}

#[test]
fn field_is_key_and_value() {
    assert_eq!(field("app=flytrap"), Some(("app", "flytrap")));
    assert_eq!(field("app=a=b"), Some(("app", "a=b")));
    assert_eq!(field("="), Some(("", "")));
    assert_eq!(field("app"), None);
    assert_eq!(field(""), None);
}

#[test]
fn same_texts() {
    assert!(same(b"app", b"app"));
    assert!(same(b"", b""));
    assert!(!same(b"app", b"ap"));
    assert!(!same(b"ap", b"app"));
    assert!(!same(b"app", b"apq"));
}
