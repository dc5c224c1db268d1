use vstd::prelude::*;
use vstd::string::*;

verus! {

/// The JSON string literal that serde_json writes for a text.
pub uninterp spec fn json_str_of(s: Seq<char>) -> Seq<char>;

/// A text that JSON writes as it is: no quote, no backslash and no control
/// character below U+0020.
pub open spec fn plain_json_text(s: Seq<char>) -> bool {
    forall|i: int| 0 <= i < s.len() ==> {
        let c = #[trigger] s[i];
        c != '"' && c != '\\' && c as u32 >= 0x20
    }
}

/// A text between double quotes.
pub open spec fn quoted(s: Seq<char>) -> Seq<char> {
    seq!['"'] + s + seq!['"']
}

/// Relies on `serde_json::to_string` applied to a `str`, which only writes
/// into a `Vec<u8>` and so always succeeds: the JSON string literal for `s`,
/// which depends on `s` alone, and `s` between quotes where nothing in it is
/// escaped. The error, which does not occur, is carried as its description.
#[verifier::external_body]
fn encode_json_str(s: &str) -> (r: Result<String, String>)
    ensures
        r is Ok,
        r matches Ok(t) ==> t@ == json_str_of(s@),
        r matches Ok(t) ==> (plain_json_text(s@) ==> t@ == quoted(s@)),
{
    serde_json::to_string(s).map_err(|e| e.to_string())
}

/// The text of an object member `"key":<value>` with a string value.
pub open spec fn member_text(key: Seq<char>, value: Seq<char>) -> Seq<char> {
    "\""@ + key + "\":"@ + json_str_of(value)
}

/// The members of an object that holds `key` only where `value` is present.
pub open spec fn optional_member(key: Seq<char>, value: Option<Seq<char>>) -> Seq<Seq<char>> {
    match value {
        Some(v) => seq![member_text(key, v)],
        None => seq![],
    }
}

/// Member texts separated by commas.
pub open spec fn join_members(m: Seq<Seq<char>>) -> Seq<char>
    decreases m.len(),
{
    if m.len() == 0 {
        seq![]
    } else if m.len() == 1 {
        m[0]
    } else {
        join_members(m.drop_last()) + ","@ + m.last()
    }
}

/// A JSON object made of member texts.
pub open spec fn json_object(m: Seq<Seq<char>>) -> Seq<char> {
    "{"@ + join_members(m) + "}"@
}

/// The texts of a list of strings.
pub open spec fn texts(v: Seq<String>) -> Seq<Seq<char>> {
    v.map_values(|s: String| s@)
}

/// An optional string as an optional text.
pub open spec fn opt_text(o: Option<String>) -> Option<Seq<char>> {
    match o {
        Some(s) => Some(s@),
        None => None,
    }
}

/// Appends the member `"key":<value>` to `members` where `value` is present.
pub fn push_optional_member(members: &mut Vec<String>, key: &str, value: &Option<String>)
    ensures
        texts(final(members)@) == texts(old(members)@) + optional_member(key@, opt_text(*value)),
        value matches Some(v) ==> (plain_json_text(v@) ==> member_text(key@, v@) == "\""@ + key@
            + "\":"@ + quoted(v@)),
{
    match value {
        None => {
            assert(texts(members@) =~= texts(members@) + optional_member(key@, opt_text(*value)));
        },
        Some(v) => {
            let encoded = encode_json_str(v.as_str()).unwrap();
            let mut m = String::from_str("\"");
            m.append(key);
            m.append("\":");
            m.append(encoded.as_str());
            members.push(m);
            assert(texts(final(members)@) =~= texts(old(members)@) + optional_member(
                key@,
                opt_text(*value),
            ));
            proof {
                if plain_json_text(v@) {
                    assert(member_text(key@, v@) =~= "\""@ + key@ + "\":"@ + quoted(v@));
                }
            }
        },
    }
}

/// The JSON object made of the given member texts, in order.
pub fn object_of_members(members: &Vec<String>) -> (r: String)
    ensures
        r@ == json_object(texts(members@)),
{
    let mut body = String::new();
    let mut i: usize = 0;
    while i < members.len()
        invariant
            i <= members@.len(),
            body@ == join_members(texts(members@).take(i as int)),
        decreases members@.len() - i,
    {
        proof {
            let t = texts(members@);
            assert(t.take(i as int + 1).drop_last() =~= t.take(i as int));
        }
        if i > 0 {
            body.append(",");
        }
        body.append(members[i].as_str());
        i = i + 1;
        proof {
            let t = texts(members@);
            if i == 1 {
                assert(t.take(1) =~= seq![t[0]]);
            }
        }
    }
    assert(texts(members@).take(members@.len() as int) =~= texts(members@));
    let mut r = String::from_str("{");
    r.append(body.as_str());
    r.append("}");
    r
}

} // verus!
