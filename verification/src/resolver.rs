//! What discovery reports: machines with their region, peers with their
//! address, and where a machine finds the name server of its private network.

use crate::error::Error;
use crate::record::{
    begins_with, bytes_of, cut, field, find, first_of, is_field, key_of, lemma_first_of, pieces,
    same, split, starts_with, value_of, values,
};
use crate::region::{parsed_location, parsed_region, Location, Region};
use std::str::FromStr;
use vstd::prelude::*;
use vstd::string::StringSliceAdditionalSpecFns;
use vstd::utf8::encode_utf8;

verus! {

/// The byte that stands between the ID and the region of a node.
pub const SPACE: u8 = 0x20;

/// The byte that stands between the items of a record.
pub const COMMA: u8 = 0x2c;

/// A machine with an ID and a region, as the `vms` record of an application
/// lists it.
#[derive(PartialEq, Eq, Clone, Debug)]
pub struct Node {
    pub location: Location,
    pub id: String,
}

/// What a text of the form `<id> <region>` says: the text before the first
/// space is the ID, and the text behind it names the location.
pub open spec fn node_location(text: Seq<u8>) -> Result<Location, Error> {
    let at = first_of(text, SPACE);
    if at >= text.len() {
        Err(Error::Parse)
    } else {
        match parsed_location(text.skip(at + 1)) {
            Ok(location) => Ok(location),
            Err(_) => Err(Error::Parse),
        }
    }
}

impl Node {
    pub fn new(region: Location, id: String) -> (node: Node)
        ensures
            node.location == region,
            node.id == id,
    {
        Node { location: region, id }
    }

    /// Create a [`Peer`] from this [`Node`] and the 128 bits of its private
    /// IPv6 address.
    pub fn into_peer(self, private_ip: u128) -> (peer: Peer)
        ensures
            peer.node == self,
            peer.private_ip == private_ip,
    {
        Peer { node: self, private_ip }
    }

    /// Return this node's [`Region`], if its region code was recognized.
    pub fn region(&self) -> (region: Option<Region>)
        ensures
            region == (match self.location {
                Location::Region(region) => Some(region),
                Location::Unknown(_) => None,
            }),
    {
        self.location.region()
    }

    /// Read a node from a text of the form `<id> <region>`.
    ///
    /// The ID is all that stands before the first space, and what stands
    /// behind it must name a location. A text without a space is no node.
    pub fn parse(text: &str) -> (node: Result<Node, Error>)
        ensures
            match node {
                Ok(node) => is_node(node, text.spec_bytes()),
                Err(error) => error == Error::Parse && node_location(text.spec_bytes()) is Err,
            },
    {
        let bytes = text.as_bytes();
        let at = find(bytes, SPACE);
        if at >= bytes.len() {
            return Err(Error::Parse);
        }
        proof {
            lemma_first_of(text.spec_bytes(), SPACE);
        }
        let (id, region) = cut(text, at);
        match Location::parse(region) {
            Ok(location) => Ok(Node { location, id: id.to_owned() }),
            Err(_) => Err(Error::Parse),
        }
    }
}

impl FromStr for Node {
    type Err = Error;

    /// Read a node from a text of the form `<id> <region>`, as
    /// [`Node::parse`] does.
    fn from_str(s: &str) -> (node: Result<Node, Error>)
        ensures
            match node {
                Ok(node) => is_node(node, s.spec_bytes()),
                Err(error) => error == Error::Parse && node_location(s.spec_bytes()) is Err,
            },
    {
        Node::parse(s)
    }
}

/// Whether `node` is what the text says: the location is the one that the
/// text names, and the ID is the text before the first space.
pub open spec fn is_node(node: Node, text: Seq<u8>) -> bool {
    &&& node_location(text) == Ok::<Location, Error>(node.location)
    &&& encode_utf8(node.id@) == text.take(first_of(text, SPACE))
}

/// Read the nodes of a record: a list of `<id> <region>` with commas
/// between. One item that is no node spoils the record.
pub fn nodes(record: &str) -> (nodes: Result<Vec<Node>, Error>)
    ensures
        match nodes {
            Ok(nodes) => {
                let items = pieces(record.spec_bytes(), COMMA);
                &&& nodes@.len() == items.len()
                &&& forall|i: int| 0 <= i < nodes@.len() ==> is_node(#[trigger] nodes@[i], items[i])
            },
            Err(error) => error == Error::Parse && exists|i: int|
                0 <= i < pieces(record.spec_bytes(), COMMA).len() && node_location(
                    #[trigger] pieces(record.spec_bytes(), COMMA)[i],
                ) is Err,
        },
{
    let items = split(record, COMMA);
    let ghost texts = pieces(record.spec_bytes(), COMMA);
    let mut nodes: Vec<Node> = Vec::new();
    let mut i: usize = 0;
    while i < items.len()
        invariant
            i <= items@.len(),
            bytes_of(items@) == texts,
            texts == pieces(record.spec_bytes(), COMMA),
            nodes@.len() == i,
            forall|k: int| 0 <= k < i ==> is_node(#[trigger] nodes@[k], texts[k]),
        decreases items.len() - i,
    {
        assert(bytes_of(items@)[i as int] == items@[i as int].spec_bytes());
        match Node::parse(items[i]) {
            Ok(node) => {
                nodes.push(node);
            },
            Err(_) => {
                assert(node_location(pieces(record.spec_bytes(), COMMA)[i as int]) is Err);
                return Err(Error::Parse);
            },
        }
        i += 1;
    }
    Ok(nodes)
}

/// The regions that the items name, in their order; an item that names none
/// is passed over.
pub open spec fn known_regions(items: Seq<Seq<u8>>) -> Seq<Region>
    decreases items.len(),
{
    if items.len() == 0 {
        Seq::empty()
    } else {
        match parsed_region(items.last()) {
            Ok(region) => known_regions(items.drop_last()).push(region),
            Err(_) => known_regions(items.drop_last()),
        }
    }
}

/// Read the regions of a record: a list of region codes with commas between.
/// A code of no known region is passed over.
pub fn regions(record: &str) -> (regions: Vec<Region>)
    ensures
        regions@ == known_regions(pieces(record.spec_bytes(), COMMA)),
{
    let items = split(record, COMMA);
    let ghost texts = pieces(record.spec_bytes(), COMMA);
    let mut regions: Vec<Region> = Vec::new();
    let mut i: usize = 0;
    while i < items.len()
        invariant
            i <= items@.len(),
            bytes_of(items@) == texts,
            regions@ == known_regions(texts.subrange(0, i as int)),
        decreases items.len() - i,
    {
        assert(bytes_of(items@)[i as int] == items@[i as int].spec_bytes());
        assert(texts.subrange(0, i + 1).drop_last() =~= texts.subrange(0, i as int));
        match Region::parse(items[i]) {
            Ok(region) => {
                regions.push(region);
            },
            Err(_) => {},
        }
        i += 1;
    }
    assert(texts.subrange(0, i as int) =~= texts);
    regions
}

/// The names that are shown of an organization's applications: not those of
/// the builders, which begin with `fly-builder-`.
pub open spec fn shown(items: Seq<Seq<u8>>) -> Seq<Seq<u8>>
    decreases items.len(),
{
    if items.len() == 0 {
        Seq::empty()
    } else if begins_with(items.last(), "fly-builder-".spec_bytes()) {
        shown(items.drop_last())
    } else {
        shown(items.drop_last()).push(items.last())
    }
}

/// Read the applications of a record: a list of names with commas between.
/// The builders, whose names begin with `fly-builder-`, are left out.
pub fn apps(record: &str) -> (apps: Vec<String>)
    ensures
        apps@.map_values(|app: String| encode_utf8(app@)) == shown(
            pieces(record.spec_bytes(), COMMA),
        ),
{
    let items = split(record, COMMA);
    let ghost texts = pieces(record.spec_bytes(), COMMA);
    let mut apps: Vec<String> = Vec::new();
    let mut i: usize = 0;
    while i < items.len()
        invariant
            i <= items@.len(),
            bytes_of(items@) == texts,
            apps@.map_values(|app: String| encode_utf8(app@)) == shown(
                texts.subrange(0, i as int),
            ),
        decreases items.len() - i,
    {
        assert(bytes_of(items@)[i as int] == items@[i as int].spec_bytes());
        assert(texts.subrange(0, i + 1).drop_last() =~= texts.subrange(0, i as int));
        if !starts_with(items[i].as_bytes(), "fly-builder-".as_bytes()) {
            let ghost before = apps@.map_values(|app: String| encode_utf8(app@));
            apps.push(items[i].to_owned());
            assert(apps@.map_values(|app: String| encode_utf8(app@)) =~= before.push(
                texts[i as int],
            ));
        }
        i += 1;
    }
    assert(texts.subrange(0, i as int) =~= texts);
    apps
}

/// A fully-resolved [`Node`] whose private IP address is known.
#[derive(PartialEq, Eq, Clone, Debug)]
pub struct Peer {
    pub node: Node,
    /// The 128 bits of the peer's private IPv6 address.
    pub private_ip: u128,
}

impl Peer {
    pub fn new(region: Location, id: String, private_ip: u128) -> (peer: Peer)
        ensures
            peer.node.location == region,
            peer.node.id == id,
            peer.private_ip == private_ip,
    {
        Peer { node: Node::new(region, id), private_ip }
    }

    /// A copy of the peer.
    pub fn duplicate(&self) -> (peer: Peer)
        ensures
            peer == *self,
    {
        Peer {
            node: Node { location: self.node.location, id: self.node.id.clone() },
            private_ip: self.private_ip,
        }
    }
}

/// A peer together with the application that it belongs to, as the
/// `_instances` record of an organization lists it.
#[derive(PartialEq, Eq, Clone, Debug)]
pub struct Instance {
    pub app: String,
    pub peer: Peer,
}

impl Instance {
    pub fn new(app: String, id: String, region: Location, private_ip: u128) -> (instance: Instance)
        ensures
            instance.app == app,
            instance.peer.node.id == id,
            instance.peer.node.location == region,
            instance.peer.private_ip == private_ip,
    {
        Instance { app, peer: Peer::new(region, id, private_ip) }
    }
}

/// What a text of the form `instance=<id>,app=<name>,ip=<address>,region=<code>`
/// says of an instance, the addresses still as text.
#[derive(PartialEq, Eq, Clone, Debug)]
pub struct InstanceFields {
    pub app: String,
    pub id: String,
    /// The value of every `ip` field, in the order of the text. The last one
    /// is the address of the instance, and each must be an address.
    pub ips: Vec<String>,
    pub location: Location,
}

/// Whether every `region` field among the items names a location.
pub open spec fn regions_named(items: Seq<Seq<u8>>) -> bool {
    forall|i: int|
        0 <= i < items.len() && is_field(#[trigger] items[i]) && key_of(items[i])
            == "region".spec_bytes() ==> parsed_location(value_of(items[i])) is Ok
}

/// Whether the fields tell all of an instance: every `region` field names a
/// location, and there is a field `instance`, `app`, `ip` and `region`.
pub open spec fn tells_instance(items: Seq<Seq<u8>>) -> bool {
    &&& regions_named(items)
    &&& values(items, "instance".spec_bytes()).len() > 0
    &&& values(items, "app".spec_bytes()).len() > 0
    &&& values(items, "ip".spec_bytes()).len() > 0
    &&& values(items, "region".spec_bytes()).len() > 0
}

/// Whether `fields` is what the items say: of several fields with one key
/// the last one counts, and every `ip` field is kept.
pub open spec fn is_instance(fields: InstanceFields, items: Seq<Seq<u8>>) -> bool {
    &&& encode_utf8(fields.id@) == values(items, "instance".spec_bytes()).last()
    &&& encode_utf8(fields.app@) == values(items, "app".spec_bytes()).last()
    &&& fields.ips@.map_values(|ip: String| encode_utf8(ip@)) == values(items, "ip".spec_bytes())
    &&& Ok::<Location, crate::region::RegionError>(fields.location) == parsed_location(
        values(items, "region".spec_bytes()).last(),
    )
}

impl InstanceFields {
    /// Read the fields of an instance from a text of the form
    /// `instance=<id>,app=<name>,ip=<address>,region=<code>`.
    ///
    /// The fields may stand in any order. An item that is no field, or a
    /// field with another key, is passed over. A `region` field that names
    /// no location spoils the text, and so does a missing field.
    pub fn parse(text: &str) -> (fields: Result<InstanceFields, Error>)
        ensures
            match fields {
                Ok(fields) => tells_instance(pieces(text.spec_bytes(), COMMA)) && is_instance(
                    fields,
                    pieces(text.spec_bytes(), COMMA),
                ),
                Err(error) => error == Error::Parse && !tells_instance(
                    pieces(text.spec_bytes(), COMMA),
                ),
            },
    {
        let items = split(text, COMMA);
        let ghost texts = pieces(text.spec_bytes(), COMMA);
        let mut app: Option<&str> = None;
        let mut id: Option<&str> = None;
        let mut ips: Vec<String> = Vec::new();
        let mut location: Option<Location> = None;
        let mut i: usize = 0;
        while i < items.len()
            invariant
                i <= items@.len(),
                bytes_of(items@) == texts,
                texts == pieces(text.spec_bytes(), COMMA),
                regions_named(texts.subrange(0, i as int)),
                match id {
                    Some(id) => values(texts.subrange(0, i as int), "instance".spec_bytes()).len()
                        > 0 && id.spec_bytes() == values(
                        texts.subrange(0, i as int),
                        "instance".spec_bytes(),
                    ).last(),
                    None => values(texts.subrange(0, i as int), "instance".spec_bytes()).len() == 0,
                },
                match app {
                    Some(app) => values(texts.subrange(0, i as int), "app".spec_bytes()).len() > 0
                        && app.spec_bytes() == values(
                        texts.subrange(0, i as int),
                        "app".spec_bytes(),
                    ).last(),
                    None => values(texts.subrange(0, i as int), "app".spec_bytes()).len() == 0,
                },
                ips@.map_values(|ip: String| encode_utf8(ip@)) == values(
                    texts.subrange(0, i as int),
                    "ip".spec_bytes(),
                ),
                match location {
                    Some(location) => values(
                        texts.subrange(0, i as int),
                        "region".spec_bytes(),
                    ).len() > 0 && Ok::<Location, crate::region::RegionError>(location)
                        == parsed_location(
                        values(texts.subrange(0, i as int), "region".spec_bytes()).last(),
                    ),
                    None => values(texts.subrange(0, i as int), "region".spec_bytes()).len() == 0,
                },
            decreases items.len() - i,
        {
            let ghost before = texts.subrange(0, i as int);
            let ghost after = texts.subrange(0, i + 1);
            proof {
                assert(bytes_of(items@)[i as int] == items@[i as int].spec_bytes());
                assert(after.drop_last() =~= before);
                assert(after.last() == texts[i as int]);
                lemma_keys_differ();
            }
            match field(items[i]) {
                Some((key, value)) => {
                    let key = key.as_bytes();
                    if same(key, "instance".as_bytes()) {
                        id = Some(value);
                    } else if same(key, "app".as_bytes()) {
                        app = Some(value);
                    } else if same(key, "ip".as_bytes()) {
                        let ghost held = ips@.map_values(|ip: String| encode_utf8(ip@));
                        ips.push(value.to_owned());
                        assert(ips@.map_values(|ip: String| encode_utf8(ip@)) =~= held.push(
                            value.spec_bytes(),
                        ));
                    } else if same(key, "region".as_bytes()) {
                        match Location::parse(value) {
                            Ok(found) => {
                                location = Some(found);
                            },
                            Err(_) => {
                                assert(!regions_named(texts)) by {
                                    assert(texts[i as int] == after.last());
                                }
                                return Err(Error::Parse);
                            },
                        }
                    }
                },
                None => {},
            }
            assert(regions_named(after)) by {
                assert forall|k: int|
                    0 <= k < after.len() && is_field(#[trigger] after[k]) && key_of(after[k])
                        == "region".spec_bytes() implies parsed_location(value_of(after[k]))
                    is Ok by {
                    if k < before.len() {
                        assert(after[k] == before[k]);
                    }
                }
            }
            i += 1;
        }
        assert(texts.subrange(0, i as int) =~= texts);
        match (app, id, location) {
            (Some(app), Some(id), Some(location)) => {
                if ips.len() == 0 {
                    return Err(Error::Parse);
                }
                Ok(InstanceFields { app: app.to_owned(), id: id.to_owned(), ips, location })
            },
            _ => Err(Error::Parse),
        }
    }
}

/// The four keys of an instance's fields are four different texts.
proof fn lemma_keys_differ()
    ensures
        "instance".spec_bytes() != "app".spec_bytes(),
        "instance".spec_bytes() != "ip".spec_bytes(),
        "instance".spec_bytes() != "region".spec_bytes(),
        "app".spec_bytes() != "ip".spec_bytes(),
        "app".spec_bytes() != "region".spec_bytes(),
        "ip".spec_bytes() != "region".spec_bytes(),
{
    reveal_strlit("instance");
    reveal_strlit("app");
    reveal_strlit("ip");
    reveal_strlit("region");
    vstd::string::is_ascii_spec_bytes("instance");
    vstd::string::is_ascii_spec_bytes("app");
    vstd::string::is_ascii_spec_bytes("ip");
    vstd::string::is_ascii_spec_bytes("region");
    assert("instance".spec_bytes().len() == 8);
    assert("app".spec_bytes().len() == 3);
    assert("ip".spec_bytes().len() == 2);
    assert("region".spec_bytes().len() == 6);
}

/// The first 16 bits of every address of the private network.
pub const PRIVATE_NETWORK: u16 = 0xfdaa;

/// The address of the name server for `local`, both as the eight 16-bit
/// segments of an IPv6 address.
pub open spec fn spec_dns_server_address(local: [u16; 8], hosted: bool) -> Seq<u16> {
    if hosted {
        seq![local@[0], 0, 0, 0, 0, 0, 0, 3]
    } else {
        seq![local@[0], local@[1], local@[2], 0, 0, 0, 0, 3]
    }
}

/// Return the name server address which serves a given `local` address of
/// the private network, both as the eight 16-bit segments of an IPv6 address.
///
/// A hosted machine asks `fdaa::3`. A machine that has joined the private
/// network from outside asks the address of its own organization, which
/// shares the second and third segment with its own.
///
/// `local` must be an address of the private network: its first segment is
/// `fdaa`.
pub fn dns_server_address(local: [u16; 8], hosted: bool) -> (server: [u16; 8])
    requires
        local@[0] == PRIVATE_NETWORK,
    ensures
        server@ == spec_dns_server_address(local, hosted),
{
    let a = local[0];
    let (b, c) = if hosted {
        (0, 0)
    } else {
        (local[1], local[2])
    };
    let server: [u16; 8] = [a, b, c, 0, 0, 0, 0, 3];
    assert(server@ =~= spec_dns_server_address(local, hosted));
    server
}

} // verus!
