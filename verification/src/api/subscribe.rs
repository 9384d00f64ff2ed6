//! Partial book depth streams: the topic that names one, and the event that
//! it carries.

use crate::codec::decimal;
use crate::json::Json;
use vstd::prelude::*;
use vstd::string::*;

verus! {

/// The method of a subscribe command.
pub const SUBSCRIBE_METHOD: &'static str = "SUBSCRIBE";

/// The parameters of a subscribe command: the topics to subscribe to.
pub type SubscribeParams = Vec<String>;

/// How many levels of the order book a depth stream carries: 5, 10 or 20.
#[derive(Clone, Copy, Debug, PartialEq, Eq, Structural)]
pub enum Levels {
    L5,
    L10,
    L20,
}

impl Levels {
    /// The number of levels.
    pub open spec fn count(self) -> nat {
        match self {
            Levels::L5 => 5,
            Levels::L10 => 10,
            Levels::L20 => 20,
        }
    }

    /// The number of levels in decimal, as a topic spells it.
    pub open spec fn digits(self) -> Seq<char> {
        decimal(self.count())
    }

    /// The number of levels.
    pub fn value(self) -> (r: u8)
        ensures
            r == self.count(),
    {
        match self {
            Levels::L5 => 5,
            Levels::L10 => 10,
            Levels::L20 => 20,
        }
    }

    /// The number of levels in decimal.
    pub fn as_str(self) -> (r: &'static str)
        ensures
            r@ == self.digits(),
    {
        proof {
            reveal_strlit("5");
            reveal_strlit("10");
            reveal_strlit("20");
            reveal_with_fuel(decimal, 2);
        }
        match self {
            Levels::L5 => {
                assert("5"@ =~= decimal(5));
                "5"
            },
            Levels::L10 => {
                assert("10"@ =~= decimal(10));
                "10"
            },
            Levels::L20 => {
                assert("20"@ =~= decimal(20));
                "20"
            },
        }
    }
}

/// What `str::to_lowercase` returns for a text.
pub uninterp spec fn lowercase(text: Seq<char>) -> Seq<char>;

/// Calls `str::to_lowercase`, whose result depends on the text alone; the
/// contract gives that result its name.
#[verifier::external_body]
fn to_lowercase(text: &str) -> (r: String)
    ensures
        r@ == lowercase(text@),
{
    text.to_lowercase()
}

/// The topic of the depth stream of a lower-case symbol, updated every second.
pub open spec fn topic_of_lowercase(lower: Seq<char>, levels: Levels) -> Seq<char> {
    lower + "@depth"@ + levels.digits() + "@1000ms"@
}

/// The topic of the depth stream of a symbol: the symbol in lower case, then
/// `@depth`, the number of levels and `@1000ms`.
pub open spec fn depth_topic_of(symbol: Seq<char>, levels: Levels) -> Seq<char> {
    topic_of_lowercase(lowercase(symbol), levels)
}

/// Builds the topic of a depth stream from a symbol that is in lower case
/// already.
pub fn lowercase_depth_topic(lower: &str, levels: Levels) -> (r: String)
    ensures
        r@ == topic_of_lowercase(lower@, levels),
{
    let mut topic = String::from_str(lower);
    topic.append("@depth");
    topic.append(levels.as_str());
    topic.append("@1000ms");
    topic
}

/// Builds the topic of the depth stream of a symbol.
pub fn depth_topic(symbol: &str, levels: Levels) -> (r: String)
    ensures
        r@ == depth_topic_of(symbol@, levels),
{
    let lower = to_lowercase(symbol);
    lowercase_depth_topic(lower.as_str(), levels)
}

/// A partial snapshot of an order book. Prices and quantities stay text, as
/// they came.
#[derive(Clone, Debug, PartialEq, Eq)]
pub struct DepthEvent {
    pub last_update_id: u64,
    pub bids: Vec<(String, String)>,
    pub asks: Vec<(String, String)>,
}

/// The mathematical value of a [`DepthEvent`].
pub ghost struct DepthEventModel {
    pub last_update_id: u64,
    pub bids: Seq<(Seq<char>, Seq<char>)>,
    pub asks: Seq<(Seq<char>, Seq<char>)>,
}

/// The price and quantity pairs of a vector, as sequences of characters.
pub open spec fn pairs_model(pairs: Seq<(String, String)>) -> Seq<(Seq<char>, Seq<char>)> {
    Seq::new(pairs.len(), |i: int| (pairs[i].0@, pairs[i].1@))
}

impl View for DepthEvent {
    type V = DepthEventModel;

    open spec fn view(&self) -> DepthEventModel {
        DepthEventModel {
            last_update_id: self.last_update_id,
            bids: pairs_model(self.bids@),
            asks: pairs_model(self.asks@),
        }
    }
}

/// The value of the first member of an object under a key, if there is one.
pub open spec fn member(members: Seq<(String, Json)>, key: Seq<char>) -> Option<Json>
    decreases members.len(),
{
    if members.len() == 0 {
        None
    } else if members[0].0@ == key {
        Some(members[0].1)
    } else {
        member(members.drop_first(), key)
    }
}

/// An update id: a number that is a non-negative integer of 64 bits.
pub open spec fn as_update_id(j: Json) -> Option<u64> {
    match j {
        Json::Number(Some(n)) => Some(n),
        _ => None,
    }
}

/// A price and a quantity: an array of exactly two strings.
pub open spec fn as_pair(j: Json) -> Option<(Seq<char>, Seq<char>)> {
    match j {
        Json::Array(items) => if items@.len() == 2 {
            match (items@[0], items@[1]) {
                (Json::Text(price), Json::Text(quantity)) => Some((price@, quantity@)),
                _ => None,
            }
        } else {
            None
        },
        _ => None,
    }
}

/// One side of the book: an array in which every item is a pair.
pub open spec fn as_side(j: Json) -> Option<Seq<(Seq<char>, Seq<char>)>> {
    match j {
        Json::Array(items) => if forall|i: int|
            0 <= i < items@.len() ==> (#[trigger] as_pair(items@[i])).is_some() {
            Some(Seq::new(items@.len(), |i: int| as_pair(items@[i]).unwrap()))
        } else {
            None
        },
        _ => None,
    }
}

/// The depth event that a JSON value denotes: an object with the members
/// `lastUpdateId`, `bids` and `asks`, each of its shape. Other members do not
/// count.
pub open spec fn depth_event_of(j: Json) -> Option<DepthEventModel> {
    match j {
        Json::Object(members) => match (
            member(members@, "lastUpdateId"@),
            member(members@, "bids"@),
            member(members@, "asks"@),
        ) {
            (Some(id), Some(bids), Some(asks)) => match (
                as_update_id(id),
                as_side(bids),
                as_side(asks),
            ) {
                (Some(id), Some(bids), Some(asks)) => Some(
                    DepthEventModel { last_update_id: id, bids, asks },
                ),
                _ => None,
            },
            _ => None,
        },
        _ => None,
    }
}

/// Finds the first member of an object under a key.
pub(crate) fn find_member<'a>(members: &'a Vec<(String, Json)>, key: &str) -> (r: Option<&'a Json>)
    ensures
        r.is_some() == member(members@, key@).is_some(),
        r.is_some() ==> *r.unwrap() == member(members@, key@).unwrap(),
{
    let wanted = String::from_str(key);
    let mut i: usize = 0;
    assert(members@.skip(0) =~= members@);
    while i < members.len()
        invariant
            i <= members.len(),
            wanted@ == key@,
            member(members@, key@) == member(members@.skip(i as int), key@),
        decreases members.len() - i,
    {
        let ghost rest = members@.skip(i as int);
        assert(rest[0] == members@[i as int]);
        if members[i].0 == wanted {
            return Some(&members[i].1);
        }
        assert(rest.drop_first() =~= members@.skip(i + 1));
        i += 1;
    }
    None
}

/// Reads a price and a quantity.
fn pair_of(j: &Json) -> (r: Option<(String, String)>)
    ensures
        r.is_some() == as_pair(*j).is_some(),
        r.is_some() ==> (r.unwrap().0@, r.unwrap().1@) == as_pair(*j).unwrap(),
{
    match j {
        Json::Array(items) => {
            if items.len() == 2 {
                match (&items[0], &items[1]) {
                    (Json::Text(price), Json::Text(quantity)) => Some(
                        (price.clone(), quantity.clone()),
                    ),
                    _ => None,
                }
            } else {
                None
            }
        },
        _ => None,
    }
}

/// Reads one side of the book.
fn side_of(j: &Json) -> (r: Option<Vec<(String, String)>>)
    ensures
        r.is_some() == as_side(*j).is_some(),
        r.is_some() ==> pairs_model(r.unwrap()@) == as_side(*j).unwrap(),
{
    match j {
        Json::Array(items) => {
            let mut side: Vec<(String, String)> = Vec::new();
            let mut i: usize = 0;
            while i < items.len()
                invariant
                    i <= items.len(),
                    *j == Json::Array(*items),
                    side@.len() == i,
                    forall|k: int| 0 <= k < i ==> (#[trigger] as_pair(items@[k])).is_some(),
                    forall|k: int|
                        0 <= k < i ==> (#[trigger] side@[k].0@, side@[k].1@) == as_pair(
                            items@[k],
                        ).unwrap(),
                decreases items.len() - i,
            {
                match pair_of(&items[i]) {
                    Some(pair) => {
                        side.push(pair);
                    },
                    None => {
                        assert(as_pair(items@[i as int]).is_none());
                        return None;
                    },
                }
                i += 1;
            }
            assert(pairs_model(side@) =~= as_side(*j).unwrap());
            Some(side)
        },
        _ => None,
    }
}

/// Reads an update id.
pub(crate) fn update_id_of(j: &Json) -> (r: Option<u64>)
    ensures
        r == as_update_id(*j),
{
    match j {
        Json::Number(Some(n)) => Some(*n),
        _ => None,
    }
}

impl DepthEvent {
    /// Reads a depth event from a JSON value, where the value has the shape
    /// of one.
    pub fn from_json(j: &Json) -> (r: Option<DepthEvent>)
        ensures
            r.is_some() == depth_event_of(*j).is_some(),
            r.is_some() ==> r.unwrap()@ == depth_event_of(*j).unwrap(),
    {
        match j {
            Json::Object(members) => {
                let id = match find_member(members, "lastUpdateId") {
                    Some(found) => update_id_of(found),
                    None => None,
                };
                let bids = match find_member(members, "bids") {
                    Some(found) => side_of(found),
                    None => None,
                };
                let asks = match find_member(members, "asks") {
                    Some(found) => side_of(found),
                    None => None,
                };
                match (id, bids, asks) {
                    (Some(last_update_id), Some(bids), Some(asks)) => Some(
                        DepthEvent { last_update_id, bids, asks },
                    ),
                    _ => None,
                }
            },
            _ => None,
        }
    }
}

} // verus!
