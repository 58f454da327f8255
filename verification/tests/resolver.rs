use flytrap::error::Error;
use flytrap::region::{Location, Region, RegionCode};
use flytrap::resolver::{dns_server_address, Instance, InstanceFields, Node, Peer};

#[test]
fn test_dns_server_address() {
    // fdaa:0:18:a7b:d6b:0:a:2
    let address = [0xfdaa, 0, 0x18, 0xa7b, 0xd6b, 0, 0xa, 2];
    // fdaa:0:18::3
    let external = [0xfdaa, 0, 0x18, 0, 0, 0, 0, 3];
    // fdaa::3
    let hosted = [0xfdaa, 0, 0, 0, 0, 0, 0, 3];

    assert_eq!(external, dns_server_address(address, false));
    assert_eq!(hosted, dns_server_address(address, true));
}

#[test]
fn dns_server_address_keeps_the_organization() {
    assert_eq!(
        dns_server_address([0xfdaa, 2, 0x224b, 0xa7b, 0x2dbb, 0x3e15, 0xaaea, 2], false),
        [0xfdaa, 2, 0x224b, 0, 0, 0, 0, 3]
    );
}

#[test]
fn test_parse_node() {
    let result = "148e21dad76789 sea,4d89699c030518 ams,6e82de14c35038 sin";
    let nodes: Vec<Node> = result.split(',').filter_map(|n| n.parse().ok()).collect();
    assert_eq!(
        &nodes,
        &[
            Node::new(Location::Region(Region::Seattle), "148e21dad76789".to_string()),
            Node::new(Location::Region(Region::Amsterdam), "4d89699c030518".to_string()),
            Node::new(Location::Region(Region::Singapore), "6e82de14c35038".to_string())
        ]
    );
}

#[test]
fn node_in_an_unknown_region() {
    assert_eq!(
        Node::parse("148e21dad76789 xyz"),
        Ok(Node::new(
            Location::Unknown(RegionCode { first: b'x', second: b'y', third: b'z' }),
            "148e21dad76789".to_string()
        ))
    );
    assert_eq!(Node::parse("148e21dad76789 xyz").unwrap().region(), None);
    assert_eq!(Node::parse("148e21dad76789 sea").unwrap().region(), Some(Region::Seattle));
}

#[test]
fn node_splits_at_the_first_space() {
    assert_eq!(
        Node::parse(" sea"),
        Ok(Node::new(Location::Region(Region::Seattle), String::new()))
    );
    assert_eq!(
        Node::parse("héllo sea"),
        Ok(Node::new(Location::Region(Region::Seattle), "héllo".to_string()))
    );
    assert_eq!(Node::parse("a b sea"), Err(Error::Parse));
}

#[test]
fn node_rejects_what_is_none() {
    assert_eq!(Node::parse(""), Err(Error::Parse));
    assert_eq!(Node::parse("148e21dad76789"), Err(Error::Parse));
    assert_eq!(Node::parse("148e21dad76789 "), Err(Error::Parse));
    assert_eq!(Node::parse("148e21dad76789 Seattle"), Err(Error::Parse));
    assert_eq!(Node::parse("148e21dad76789,sea"), Err(Error::Parse));
}

#[test]
fn peers_and_instances_are_put_together() {
    let node = Node::new(Location::Region(Region::Seattle), "148e21dad76789".to_string());
    let peer = node.clone().into_peer(7);
    assert_eq!(peer, Peer::new(Location::Region(Region::Seattle), "148e21dad76789".to_string(), 7));
    assert_eq!(peer.duplicate(), peer);
    let instance = Instance::new(
        "flytrap".to_string(),
        "148e21dad76789".to_string(),
        Location::Region(Region::Seattle),
        7,
    );
    assert_eq!(instance.app, "flytrap");
    assert_eq!(instance.peer, peer);
}

fn fields(app: &str, id: &str, ips: &[&str], location: Location) -> InstanceFields {
    InstanceFields {
        app: app.to_string(),
        id: id.to_string(),
        ips: ips.iter().map(|ip| ip.to_string()).collect(),
        location,
    }
}

#[test]
fn instance_fields() {
    let result =
        "instance=148e21dad76789,app=flytrap,ip=fdaa:2:224b:a7b:2dbb:3e15:aaea:2,region=sea";
    assert_eq!(
        InstanceFields::parse(result),
        Ok(fields(
            "flytrap",
            "148e21dad76789",
            &["fdaa:2:224b:a7b:2dbb:3e15:aaea:2"],
            Location::Region(Region::Seattle)
        ))
    );
}

#[test]
fn instance_fields_in_any_order_and_among_others() {
    assert_eq!(
        InstanceFields::parse("region=ams,zone=b,ip=::1,,app=a=b,instance=1,nothing"),
        Ok(fields("a=b", "1", &["::1"], Location::Region(Region::Amsterdam)))
    );
}

#[test]
fn of_fields_with_one_key_the_last_counts() {
    assert_eq!(
        InstanceFields::parse("app=one,instance=1,ip=::1,region=sea,app=two,ip=::2,region=ams,instance=2"),
        Ok(fields("two", "2", &["::1", "::2"], Location::Region(Region::Amsterdam)))
    );
}

#[test]
fn instance_fields_missing_or_wrong() {
    assert_eq!(InstanceFields::parse(""), Err(Error::Parse));
    assert_eq!(InstanceFields::parse("instance=1,app=a,ip=::1"), Err(Error::Parse));
    assert_eq!(InstanceFields::parse("instance=1,app=a,region=sea"), Err(Error::Parse));
    assert_eq!(InstanceFields::parse("instance=1,ip=::1,region=sea"), Err(Error::Parse));
    assert_eq!(InstanceFields::parse("app=a,ip=::1,region=sea"), Err(Error::Parse));
    assert_eq!(InstanceFields::parse("instance=1,app=a,ip=::1,region=Seattle"), Err(Error::Parse));
    // one region that names no location spoils the text, though a later one is in order
    assert_eq!(
        InstanceFields::parse("instance=1,app=a,ip=::1,region=Seattle,region=sea"),
        Err(Error::Parse)
    );
    assert_eq!(InstanceFields::parse("Instance=1,app=a,ip=::1,region=sea"), Err(Error::Parse));
}
