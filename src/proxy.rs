//! The proxy's one route, `GET /pokemon/{id}`: the upstream URLs it calls, the
//! JSON it re-encodes, and the reply it sends for each upstream outcome.
use vstd::prelude::*;
use vstd::string::*;
use crate::json::{decimal, decimal_text, joined, json_string, json_string_of, lemma_joined_step};

verus! {

/// One entry of a detail record's `types` array.
#[derive(Clone, Debug)]
pub struct TypeSlot {
    pub slot: u32,
    pub name: String,
}

/// One entry of a detail record's `abilities` array.
#[derive(Clone, Debug)]
pub struct Ability {
    pub name: String,
}

/// The fields of an upstream detail record that the proxy passes on.
#[derive(Clone, Debug)]
pub struct DetailRecord {
    pub name: String,
    pub id: u32,
    pub height: u32,
    pub weight: u32,
    pub base_experience: u32,
    pub types: Vec<TypeSlot>,
    pub abilities: Vec<Ability>,
    pub front_default: String,
}

/// `{"slot":<slot>,"type":{"name":<name>}}`
pub open spec fn type_json(t: TypeSlot) -> Seq<char> {
    "{\"slot\":"@ + decimal_text(t.slot as nat) + ",\"type\":{\"name\":"@ + json_string_of(
        t.name@,
    ) + "}}"@
}

/// `{"ability":{"name":<name>}}`
pub open spec fn ability_json(a: Ability) -> Seq<char> {
    "{\"ability\":{\"name\":"@ + json_string_of(a.name@) + "}}"@
}

/// A compact JSON array of already encoded items.
pub open spec fn array_json(items: Seq<Seq<char>>) -> Seq<char> {
    "["@ + joined(items, ","@) + "]"@
}

/// The compact JSON object sent for a detail record, fields in upstream order.
pub open spec fn detail_json(d: DetailRecord) -> Seq<char> {
    "{\"name\":"@ + json_string_of(d.name@) + ",\"id\":"@ + decimal_text(d.id as nat)
        + ",\"height\":"@ + decimal_text(d.height as nat) + ",\"weight\":"@ + decimal_text(
        d.weight as nat,
    ) + ",\"base_experience\":"@ + decimal_text(d.base_experience as nat) + ",\"types\":"@
        + array_json(d.types@.map_values(|t: TypeSlot| type_json(t))) + ",\"abilities\":"@
        + array_json(d.abilities@.map_values(|a: Ability| ability_json(a)))
        + ",\"sprites\":{\"front_default\":"@ + json_string_of(d.front_default@) + "}}"@
}

fn encode_type(t: &TypeSlot) -> (s: String)
    ensures
        s@ == type_json(*t),
{
    let mut s = String::from_str("{\"slot\":");
    s.append(decimal(t.slot as u64).as_str());
    s.append(",\"type\":{\"name\":");
    s.append(json_string(t.name.as_str()).as_str());
    s.append("}}");
    s
}

fn encode_ability(a: &Ability) -> (s: String)
    ensures
        s@ == ability_json(*a),
{
    let mut s = String::from_str("{\"ability\":{\"name\":");
    s.append(json_string(a.name.as_str()).as_str());
    s.append("}}");
    s
}

fn encode_types(ts: &Vec<TypeSlot>) -> (s: String)
    ensures
        s@ == array_json(ts@.map_values(|t: TypeSlot| type_json(t))),
{
    let ghost items = ts@.map_values(|t: TypeSlot| type_json(t));
    let mut s = String::from_str("[");
    let mut i: usize = 0;
    while i < ts.len()
        invariant
            0 <= i <= ts.len(),
            items == ts@.map_values(|t: TypeSlot| type_json(t)),
            s@ == "["@ + joined(items.take(i as int), ","@),
        decreases ts.len() - i,
    {
        proof {
            lemma_joined_step(items, ","@, i as int);
            if i == 0 {
                assert(joined(items.take(0), ","@) =~= Seq::<char>::empty());
            }
        }
        if i > 0 {
            s.append(",");
        }
        let b = encode_type(&ts[i]);
        s.append(b.as_str());
        assert(s@ =~= "["@ + joined(items.take(i + 1), ","@));
        i = i + 1;
    }
    assert(items.take(ts.len() as int) =~= items);
    s.append("]");
    s
}

fn encode_abilities(abs: &Vec<Ability>) -> (s: String)
    ensures
        s@ == array_json(abs@.map_values(|a: Ability| ability_json(a))),
{
    let ghost items = abs@.map_values(|a: Ability| ability_json(a));
    let mut s = String::from_str("[");
    let mut i: usize = 0;
    while i < abs.len()
        invariant
            0 <= i <= abs.len(),
            items == abs@.map_values(|a: Ability| ability_json(a)),
            s@ == "["@ + joined(items.take(i as int), ","@),
        decreases abs.len() - i,
    {
        proof {
            lemma_joined_step(items, ","@, i as int);
            if i == 0 {
                assert(joined(items.take(0), ","@) =~= Seq::<char>::empty());
            }
        }
        if i > 0 {
            s.append(",");
        }
        let b = encode_ability(&abs[i]);
        s.append(b.as_str());
        assert(s@ =~= "["@ + joined(items.take(i + 1), ","@));
        i = i + 1;
    }
    assert(items.take(abs.len() as int) =~= items);
    s.append("]");
    s
}

/// Encodes a detail record as the compact JSON the proxy replies with.
pub fn encode_detail(d: &DetailRecord) -> (s: String)
    ensures
        s@ == detail_json(*d),
{
    let mut s = String::from_str("{\"name\":");
    s.append(json_string(d.name.as_str()).as_str());
    s.append(",\"id\":");
    s.append(decimal(d.id as u64).as_str());
    s.append(",\"height\":");
    s.append(decimal(d.height as u64).as_str());
    s.append(",\"weight\":");
    s.append(decimal(d.weight as u64).as_str());
    s.append(",\"base_experience\":");
    s.append(decimal(d.base_experience as u64).as_str());
    s.append(",\"types\":");
    s.append(encode_types(&d.types).as_str());
    s.append(",\"abilities\":");
    s.append(encode_abilities(&d.abilities).as_str());
    s.append(",\"sprites\":{\"front_default\":");
    s.append(json_string(d.front_default.as_str()).as_str());
    s.append("}}");
    s
}

/// The upstream URL of the detail record with this identifier.
pub fn detail_url(base: &str, id: u64) -> (u: String)
    ensures
        u@ == base@ + "/pokemon/"@ + decimal_text(id as nat),
{
    let mut u = String::from_str(base);
    u.append("/pokemon/");
    u.append(decimal(id).as_str());
    u
}

/// The upstream URL of the list of the first `limit` entries.
pub fn list_url(base: &str, limit: u64) -> (u: String)
    ensures
        u@ == base@ + "/pokemon?limit="@ + decimal_text(limit as nat),
{
    let mut u = String::from_str(base);
    u.append("/pokemon?limit=");
    u.append(decimal(limit).as_str());
    u
}

/// An HTTP reply of the proxy.
#[derive(Clone, Debug)]
pub struct ProxyReply {
    pub status: u16,
    /// Header names and values, in order.
    pub headers: Vec<(String, String)>,
    pub body: String,
}

/// The headers of every reply: any origin may read it, by GET.
pub open spec fn cors_headers_ok(hs: Seq<(String, String)>) -> bool {
    &&& hs.len() >= 2
    &&& hs[0].0@ == "access-control-allow-origin"@
    &&& hs[0].1@ == "*"@
    &&& hs[1].0@ == "access-control-allow-methods"@
    &&& hs[1].1@ == "GET"@
}

/// The reply for one request, given the decoded upstream record, or `None` when
/// the upstream call failed or its body did not decode: 200 with the record as
/// JSON, or 404 with an empty body. Both carry the CORS headers.
pub fn proxy_reply(detail: Option<DetailRecord>) -> (r: ProxyReply)
    ensures
        cors_headers_ok(r.headers@),
        match detail {
            Some(d) => {
                &&& r.status == 200
                &&& r.headers@.len() == 3
                &&& r.headers@[2].0@ == "content-type"@
                &&& r.headers@[2].1@ == "application/json"@
                &&& r.body@ == detail_json(d)
            },
            None => {
                &&& r.status == 404
                &&& r.headers@.len() == 2
                &&& r.body@.len() == 0
            },
        },
{
    let mut headers: Vec<(String, String)> = Vec::new();
    headers.push((String::from_str("access-control-allow-origin"), String::from_str("*")));
    headers.push((String::from_str("access-control-allow-methods"), String::from_str("GET")));
    match detail {
        Some(d) => {
            headers.push((String::from_str("content-type"), String::from_str("application/json")));
            ProxyReply { status: 200, headers, body: encode_detail(&d) }
        },
        None => ProxyReply { status: 404, headers, body: String::new() },
    }
}

} // verus!
