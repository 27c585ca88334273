//! JSON text produced by the library: decimal numbers, string literals and the
//! pretty-printed array of flattened records written by a fetch run.
use vstd::prelude::*;
use vstd::string::*;
use crate::record::{FlatRecord, FlatView, flat_views};

verus! {

/// The ASCII digit for a value below ten.
pub open spec fn digit_char(d: nat) -> char {
    if d == 0 {
        '0'
    } else if d == 1 {
        '1'
    } else if d == 2 {
        '2'
    } else if d == 3 {
        '3'
    } else if d == 4 {
        '4'
    } else if d == 5 {
        '5'
    } else if d == 6 {
        '6'
    } else if d == 7 {
        '7'
    } else if d == 8 {
        '8'
    } else {
        '9'
    }
}

/// Decimal notation of a natural number, without sign or leading zeros.
pub open spec fn decimal_text(n: nat) -> Seq<char>
    decreases n,
{
    if n < 10 {
        seq![digit_char(n)]
    } else {
        decimal_text(n / 10).push(digit_char(n % 10))
    }
}

/// The parts written one after the other, with `sep` between neighbours.
pub open spec fn joined(parts: Seq<Seq<char>>, sep: Seq<char>) -> Seq<char>
    decreases parts.len(),
{
    if parts.len() == 0 {
        Seq::empty()
    } else if parts.len() == 1 {
        parts[0]
    } else {
        joined(parts.drop_last(), sep) + sep + parts.last()
    }
}

/// Joining one more part extends the joined text of the earlier ones.
pub proof fn lemma_joined_step(parts: Seq<Seq<char>>, sep: Seq<char>, i: int)
    requires
        0 <= i < parts.len(),
    ensures
        joined(parts.take(i + 1), sep) == if i == 0 {
            parts[0]
        } else {
            joined(parts.take(i), sep) + sep + parts[i]
        },
{
    assert(parts.take(i + 1).drop_last() =~= parts.take(i));
}

/// What serde_json writes for a JSON string holding `s`: the characters of `s`
/// quoted and escaped.
pub uninterp spec fn json_string_of(s: Seq<char>) -> Seq<char>;

/// Relies on `serde_json::to_string` applied to a `str`, for the quoted and
/// escaped JSON string literal. serde_json writes a `str` into an in-memory
/// buffer, which does not fail.
#[verifier::external_body]
pub(crate) fn json_string(s: &str) -> (r: String)
    ensures
        r@ == json_string_of(s@),
{
    match serde_json::to_string(s) {
        Ok(t) => t,
        Err(_) => String::new(),
    }
}

/// The one-character string of a digit.
fn digit_string(d: u64) -> (r: String)
    requires
        d < 10,
    ensures
        r@ == seq![digit_char(d as nat)],
{
    let lit: &str = if d == 0 {
        proof { reveal_strlit("0"); }
        "0"
    } else if d == 1 {
        proof { reveal_strlit("1"); }
        "1"
    } else if d == 2 {
        proof { reveal_strlit("2"); }
        "2"
    } else if d == 3 {
        proof { reveal_strlit("3"); }
        "3"
    } else if d == 4 {
        proof { reveal_strlit("4"); }
        "4"
    } else if d == 5 {
        proof { reveal_strlit("5"); }
        "5"
    } else if d == 6 {
        proof { reveal_strlit("6"); }
        "6"
    } else if d == 7 {
        proof { reveal_strlit("7"); }
        "7"
    } else if d == 8 {
        proof { reveal_strlit("8"); }
        "8"
    } else {
        proof { reveal_strlit("9"); }
        "9"
    };
    let r = String::from_str(lit);
    assert(r@ =~= seq![digit_char(d as nat)]);
    r
}

/// Decimal notation of `n`.
pub fn decimal(n: u64) -> (r: String)
    ensures
        r@ == decimal_text(n as nat),
    decreases n,
{
    if n < 10 {
        digit_string(n)
    } else {
        let mut s = decimal(n / 10);
        let d = digit_string(n % 10);
        s.append(d.as_str());
        assert(s@ =~= decimal_text(n as nat));
        s
    }
}

/// One record as serde_json's pretty printer lays out an array element.
pub open spec fn record_block(r: FlatView) -> Seq<char> {
    "  {\n    \"id\": "@ + decimal_text(r.id) + ",\n    \"name\": "@ + json_string_of(r.name)
        + ",\n    \"url\": "@ + json_string_of(r.url) + ",\n    \"sprite\": "@
        + json_string_of(r.sprite) + "\n  }"@
}

/// The pretty-printed JSON array of records: `[]` when there are none, else one
/// indented object per record, in order, separated by commas.
pub open spec fn records_json(rs: Seq<FlatView>) -> Seq<char> {
    if rs.len() == 0 {
        "[]"@
    } else {
        "[\n"@ + joined(rs.map_values(|r: FlatView| record_block(r)), ",\n"@) + "\n]"@
    }
}

/// Writes one record block.
fn encode_record(r: &FlatRecord) -> (s: String)
    ensures
        s@ == record_block(r@),
{
    let mut s = String::from_str("  {\n    \"id\": ");
    s.append(decimal(r.id as u64).as_str());
    s.append(",\n    \"name\": ");
    s.append(json_string(r.name.as_str()).as_str());
    s.append(",\n    \"url\": ");
    s.append(json_string(r.url.as_str()).as_str());
    s.append(",\n    \"sprite\": ");
    s.append(json_string(r.sprite.as_str()).as_str());
    s.append("\n  }");
    s
}

/// Serialises records as the pretty-printed JSON array that a fetch run writes.
pub fn encode_records(rs: &Vec<FlatRecord>) -> (s: String)
    ensures
        s@ == records_json(flat_views(rs@)),
{
    if rs.len() == 0 {
        return String::from_str("[]");
    }
    let ghost blocks = flat_views(rs@).map_values(|r: FlatView| record_block(r));
    let mut s = String::from_str("[\n");
    let mut i: usize = 0;
    while i < rs.len()
        invariant
            0 <= i <= rs.len(),
            blocks == flat_views(rs@).map_values(|r: FlatView| record_block(r)),
            blocks.len() == rs@.len(),
            s@ == "[\n"@ + joined(blocks.take(i as int), ",\n"@),
        decreases rs.len() - i,
    {
        proof {
            lemma_joined_step(blocks, ",\n"@, i as int);
        }
        if i > 0 {
            s.append(",\n");
        }
        let b = encode_record(&rs[i]);
        assert(b@ == blocks[i as int]);
        s.append(b.as_str());
        proof {
            if i == 0 {
                assert(joined(blocks.take(0), ",\n"@) =~= Seq::<char>::empty());
            }
        }
        assert(s@ =~= "[\n"@ + joined(blocks.take(i + 1), ",\n"@));
        i = i + 1;
    }
    assert(blocks.take(rs.len() as int) =~= blocks);
    s.append("\n]");
    s
}

} // verus!
