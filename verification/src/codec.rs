//! The envelope codec: commands to text, and text to events.

use crate::api::subscribe::{
    as_update_id, depth_event_of, find_member, member, update_id_of, DepthEvent, DepthEventModel,
};
use crate::json::{parse, parsed, quote, quoted, Json};
use crate::types::{texts_model, Request, RequestModel};
use vstd::prelude::*;
use vstd::string::*;

verus! {

/// The character of a decimal digit.
pub open spec fn digit(d: nat) -> char {
    if d == 0 {
        '0'
    } else if d == 1 {
        '1'
    } else if d == 2 {
        '2'
    } else if d == 3 {
        '3'
    } else if d == 4 {
        '4'
    } else if d == 5 {
        '5'
    } else if d == 6 {
        '6'
    } else if d == 7 {
        '7'
    } else if d == 8 {
        '8'
    } else {
        '9'
    }
}

/// A number in decimal, without leading zeros.
pub open spec fn decimal(n: nat) -> Seq<char>
    decreases n,
{
    if n < 10 {
        seq![digit(n)]
    } else {
        decimal(n / 10).push(digit(n % 10))
    }
}

fn digit_text(d: u64) -> (r: &'static str)
    requires
        d < 10,
    ensures
        r@ == seq![digit(d as nat)],
{
    proof {
        reveal_strlit("0");
        reveal_strlit("1");
        reveal_strlit("2");
        reveal_strlit("3");
        reveal_strlit("4");
        reveal_strlit("5");
        reveal_strlit("6");
        reveal_strlit("7");
        reveal_strlit("8");
        reveal_strlit("9");
    }
    let r = if d == 0 {
        "0"
    } else if d == 1 {
        "1"
    } else if d == 2 {
        "2"
    } else if d == 3 {
        "3"
    } else if d == 4 {
        "4"
    } else if d == 5 {
        "5"
    } else if d == 6 {
        "6"
    } else if d == 7 {
        "7"
    } else if d == 8 {
        "8"
    } else {
        "9"
    };
    assert(r@ =~= seq![digit(d as nat)]);
    r
}

/// Writes a number in decimal.
pub fn decimal_text(n: u64) -> (r: String)
    ensures
        r@ == decimal(n as nat),
    decreases n,
{
    if n < 10 {
        String::from_str(digit_text(n))
    } else {
        let head = decimal_text(n / 10);
        let r = head.concat(digit_text(n % 10));
        assert(r@ =~= decimal(n as nat));
        r
    }
}

/// The parameters of a command as JSON string literals with commas between
/// them.
pub open spec fn quoted_list(params: Seq<Seq<char>>) -> Seq<char>
    decreases params.len(),
{
    if params.len() == 0 {
        Seq::empty()
    } else if params.len() == 1 {
        quoted(params[0])
    } else {
        quoted_list(params.drop_last()) + ","@ + quoted(params.last())
    }
}

/// The text of a command: an object with the members `method`, `params` and
/// `id`, in this order and without white space.
pub open spec fn encoded(req: RequestModel) -> Seq<char> {
    "{\"method\":"@ + quoted(req.method) + ",\"params\":["@ + quoted_list(req.params)
        + "],\"id\":"@ + decimal(req.id as nat) + "}"@
}

/// Writes a command as the one text frame that carries it.
pub fn encode(req: &Request) -> (r: String)
    ensures
        r@ == encoded(req@),
{
    let mut out = String::from_str("{\"method\":");
    out.append(quote(req.method.as_str()).as_str());
    out.append(",\"params\":[");
    let ghost head = out@;
    let ghost params = texts_model(req.params@);
    let mut i: usize = 0;
    assert(params.take(0) =~= Seq::empty());
    while i < req.params.len()
        invariant
            i <= req.params.len(),
            params == texts_model(req.params@),
            out@ == head + quoted_list(params.take(i as int)),
        decreases req.params.len() - i,
    {
        if i > 0 {
            out.append(",");
        }
        out.append(quote(req.params[i].as_str()).as_str());
        proof {
            let next = params.take(i + 1);
            assert(next.drop_last() =~= params.take(i as int));
            assert(next.last() == req.params@[i as int]@);
            if i == 0 {
                assert(quoted_list(params.take(0)) =~= Seq::empty());
                assert(next[0] == next.last());
            }
            assert(out@ =~= head + quoted_list(next));
        }
        i += 1;
    }
    assert(params.take(i as int) =~= params);
    out.append("],\"id\":");
    out.append(decimal_text(req.id).as_str());
    out.append("}");
    out
}

/// A text: a JSON string.
pub open spec fn as_text(j: Json) -> Option<Seq<char>> {
    match j {
        Json::Text(text) => Some(text@),
        _ => None,
    }
}

/// A list of parameters: an array in which every item is a string.
pub open spec fn as_texts(j: Json) -> Option<Seq<Seq<char>>> {
    match j {
        Json::Array(items) => if forall|i: int|
            0 <= i < items@.len() ==> (#[trigger] as_text(items@[i])).is_some() {
            Some(Seq::new(items@.len(), |i: int| as_text(items@[i]).unwrap()))
        } else {
            None
        },
        _ => None,
    }
}

/// The command that a JSON value denotes: an object with the members
/// `method`, `params` and `id`, each of its shape.
pub open spec fn request_of(j: Json) -> Option<RequestModel> {
    match j {
        Json::Object(members) => match (
            member(members@, "method"@),
            member(members@, "params"@),
            member(members@, "id"@),
        ) {
            (Some(method), Some(params), Some(id)) => match (
                as_text(method),
                as_texts(params),
                as_update_id(id),
            ) {
                (Some(method), Some(params), Some(id)) => Some(RequestModel { method, params, id }),
                _ => None,
            },
            _ => None,
        },
        _ => None,
    }
}

/// The command that a text carries, if it carries one.
pub open spec fn decoded_request(text: Seq<char>) -> Option<RequestModel> {
    match parsed(text) {
        None => None,
        Some(j) => request_of(j),
    }
}

fn text_of(j: &Json) -> (r: Option<String>)
    ensures
        r.is_some() == as_text(*j).is_some(),
        r.is_some() ==> r.unwrap()@ == as_text(*j).unwrap(),
{
    match j {
        Json::Text(text) => Some(text.clone()),
        _ => None,
    }
}

fn texts_of(j: &Json) -> (r: Option<Vec<String>>)
    ensures
        r.is_some() == as_texts(*j).is_some(),
        r.is_some() ==> texts_model(r.unwrap()@) == as_texts(*j).unwrap(),
{
    match j {
        Json::Array(items) => {
            let mut texts: Vec<String> = Vec::new();
            let mut i: usize = 0;
            while i < items.len()
                invariant
                    i <= items.len(),
                    *j == Json::Array(*items),
                    texts@.len() == i,
                    forall|k: int| 0 <= k < i ==> (#[trigger] as_text(items@[k])).is_some(),
                    forall|k: int|
                        0 <= k < i ==> (#[trigger] texts@[k])@ == as_text(items@[k]).unwrap(),
                decreases items.len() - i,
            {
                match text_of(&items[i]) {
                    Some(text) => {
                        texts.push(text);
                    },
                    None => {
                        assert(as_text(items@[i as int]).is_none());
                        return None;
                    },
                }
                i += 1;
            }
            assert(texts_model(texts@) =~= as_texts(*j).unwrap());
            Some(texts)
        },
        _ => None,
    }
}

impl Request {
    /// Reads a command from a JSON value, where the value has the shape of
    /// one.
    pub fn from_json(j: &Json) -> (r: Option<Request>)
        ensures
            r.is_some() == request_of(*j).is_some(),
            r.is_some() ==> r.unwrap()@ == request_of(*j).unwrap(),
    {
        match j {
            Json::Object(members) => {
                let method = match find_member(members, "method") {
                    Some(found) => text_of(found),
                    None => None,
                };
                let params = match find_member(members, "params") {
                    Some(found) => texts_of(found),
                    None => None,
                };
                let id = match find_member(members, "id") {
                    Some(found) => update_id_of(found),
                    None => None,
                };
                match (method, params, id) {
                    (Some(method), Some(params), Some(id)) => Some(Request { method, params, id }),
                    _ => None,
                }
            },
            _ => None,
        }
    }

    /// The JSON value of a command. Read back, it gives the same method,
    /// parameters and id.
    pub fn to_json(&self) -> (j: Json)
        ensures
            request_of(j) == Some(self@),
    {
        let mut items: Vec<Json> = Vec::new();
        let mut i: usize = 0;
        while i < self.params.len()
            invariant
                i <= self.params.len(),
                items@.len() == i,
                forall|k: int| 0 <= k < i ==> #[trigger] as_text(items@[k]) == Some(self.params@[k]@),
            decreases self.params.len() - i,
        {
            items.push(Json::Text(self.params[i].clone()));
            i += 1;
        }
        let params = Json::Array(items);
        assert(as_texts(params).is_some() && as_texts(params).unwrap() =~= self@.params);
        let mut members: Vec<(String, Json)> = Vec::new();
        members.push((String::from_str("method"), Json::Text(self.method.clone())));
        members.push((String::from_str("params"), params));
        members.push((String::from_str("id"), Json::Number(Some(self.id))));
        proof {
            reveal_strlit("method");
            reveal_strlit("params");
            reveal_strlit("id");
            let all = members@;
            let tail = all.drop_first();
            let last = tail.drop_first();
            assert("method"@[0] != "params"@[0]);
            assert("method"@.len() != "id"@.len());
            assert("params"@.len() != "id"@.len());
            assert(tail[0] == all[1]);
            assert(last[0] == all[2]);
            assert(member(last, "id"@) == Some(all[2].1));
            assert(member(tail, "id"@) == Some(all[2].1));
            assert(member(tail, "params"@) == Some(all[1].1));
            assert(member(all, "method"@) == Some(all[0].1));
            assert(member(all, "params"@) == Some(all[1].1));
            assert(member(all, "id"@) == Some(all[2].1));
        }
        Json::Object(members)
    }
}

/// Reads a text frame as a command.
pub fn decode_request(text: &str) -> (r: Option<Request>)
    ensures
        r.is_some() == decoded_request(text@).is_some(),
        r.is_some() ==> r.unwrap()@ == decoded_request(text@).unwrap(),
{
    match parse(text) {
        None => None,
        Some(j) => Request::from_json(&j),
    }
}

/// Why a text is no depth event.
#[derive(Clone, Copy, Debug, PartialEq, Eq, Structural)]
pub enum ParseError {
    /// The text is not one JSON value.
    NotJson,
    /// The text is JSON of another shape.
    WrongShape,
}

/// The depth event that a text frame carries, or why it carries none.
pub open spec fn decoded(text: Seq<char>) -> Result<DepthEventModel, ParseError> {
    match parsed(text) {
        None => Err(ParseError::NotJson),
        Some(j) => match depth_event_of(j) {
            None => Err(ParseError::WrongShape),
            Some(event) => Ok(event),
        },
    }
}

/// Reads a text frame as a depth event.
pub fn decode(text: &str) -> (r: Result<DepthEvent, ParseError>)
    ensures
        match r {
            Ok(event) => decoded(text@) == Ok::<DepthEventModel, ParseError>(event@),
            Err(e) => decoded(text@) == Err::<DepthEventModel, ParseError>(e),
        },
{
    match parse(text) {
        None => Err(ParseError::NotJson),
        Some(j) => match DepthEvent::from_json(&j) {
            None => Err(ParseError::WrongShape),
            Some(event) => Ok(event),
        },
    }
}

} // verus!
