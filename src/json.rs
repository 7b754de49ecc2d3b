use vstd::prelude::*;
use vstd::string::StringExecFns;

verus! {

/// The JSON string literal (quotes and escapes included) that stands for `s`.
pub uninterp spec fn json_quoted(s: Seq<char>) -> Seq<char>;

/// Relies on `serde_json::to_string` applied to a `str`: it writes the escaped,
/// quoted JSON string literal for its argument, a function of the characters
/// alone. Serializing a `str` into memory has no failing path in serde_json.
#[verifier::external_body]
pub(crate) fn quote(s: &str) -> (r: String)
    ensures
        r@ == json_quoted(s@),
{
    serde_json::to_string(s).expect("a str always serializes")
}

/// `"key":value`, one member of a JSON object. Keys here are plain ASCII
/// words, which need no escaping.
pub open spec fn member(key: Seq<char>, value: Seq<char>) -> Seq<char> {
    seq!['"'] + key + seq!['"', ':'] + value
}

/// The items separated by commas.
pub open spec fn join(items: Seq<Seq<char>>) -> Seq<char>
    decreases items.len(),
{
    if items.len() == 0 {
        Seq::empty()
    } else if items.len() == 1 {
        items[0]
    } else {
        join(items.drop_last()) + seq![','] + items.last()
    }
}

/// A JSON array of already encoded items.
pub open spec fn array(items: Seq<Seq<char>>) -> Seq<char> {
    seq!['['] + join(items) + seq![']']
}

/// A JSON object of already encoded members, in the given order.
pub open spec fn object(members: Seq<Seq<char>>) -> Seq<char> {
    seq!['{'] + join(members) + seq!['}']
}

/// The member `key` when a value is present, nothing when it is absent.
pub open spec fn optional(key: Seq<char>, value: Option<Seq<char>>) -> Seq<Seq<char>> {
    match value {
        Some(v) => seq![member(key, v)],
        None => Seq::empty(),
    }
}

/// The JSON literal of a flag.
pub open spec fn boolean(b: bool) -> Seq<char> {
    if b {
        "true"@
    } else {
        "false"@
    }
}

/// The decimal digit `d`.
pub open spec fn digit(d: nat) -> char {
    "0123456789"@[d as int]
}

/// The decimal numeral of `n`, without leading zeros.
pub open spec fn decimal(n: nat) -> Seq<char>
    decreases n,
{
    if n < 10 {
        seq![digit(n)]
    } else {
        decimal(n / 10).push(digit(n % 10))
    }
}

/// Appends the decimal numeral of `n` to `out`.
pub fn push_decimal(out: &mut String, n: u32)
    ensures
        final(out)@ == old(out)@ + decimal(n as nat),
    decreases n,
{
    if n >= 10 {
        push_decimal(out, n / 10);
    }
    let d: usize = (n % 10) as usize;
    let digits = "0123456789";
    proof {
        reveal_strlit("0123456789");
    }
    let one = digits.substring_char(d, d + 1);
    assert(one@ =~= seq![digit(d as nat)]);
    out.append(one);
}

/// The texts that a vector of strings holds.
pub open spec fn texts(v: Seq<String>) -> Seq<Seq<char>> {
    v.map_values(|s: String| s@)
}

/// Appends the items to `out`, separated by commas.
fn push_joined(out: &mut String, items: &Vec<String>)
    ensures
        final(out)@ == old(out)@ + join(texts(items@)),
{
    let ghost start = out@;
    proof {
        assert(texts(items@).take(0) =~= Seq::<Seq<char>>::empty());
    }
    let mut i: usize = 0;
    while i < items.len()
        invariant
            i <= items.len(),
            out@ == start + join(texts(items@).take(i as int)),
        decreases items.len() - i,
    {
        let ghost before = out@;
        proof {
            reveal_strlit(",");
        }
        if i > 0 {
            out.append(",");
        }
        out.append(items[i].as_str());
        proof {
            let all = texts(items@);
            let prefix = all.take(i + 1);
            assert(prefix.drop_last() =~= all.take(i as int));
            assert(prefix.last() == items@[i as int]@);
            if i == 0 {
                assert(out@ =~= start + join(prefix));
            } else {
                assert(before == start + join(prefix.drop_last()));
                assert(join(prefix) == join(prefix.drop_last()) + seq![','] + prefix.last());
                assert(out@ =~= before + seq![','] + prefix.last());
            }
        }
        i += 1;
    }
    assert(texts(items@).take(items@.len() as int) =~= texts(items@));
}

/// The JSON array of already encoded items.
pub fn encode_array(items: &Vec<String>) -> (r: String)
    ensures
        r@ == array(texts(items@)),
{
    proof {
        reveal_strlit("[");
        reveal_strlit("]");
    }
    let mut out = String::from_str("[");
    push_joined(&mut out, items);
    out.append("]");
    assert(out@ =~= array(texts(items@)));
    out
}

/// The JSON object of already encoded members.
pub fn encode_object(members: &Vec<String>) -> (r: String)
    ensures
        r@ == object(texts(members@)),
{
    proof {
        reveal_strlit("{");
        reveal_strlit("}");
    }
    let mut out = String::from_str("{");
    push_joined(&mut out, members);
    out.append("}");
    assert(out@ =~= object(texts(members@)));
    out
}

/// The member `"key":value`.
pub fn encode_member(key: &str, value: String) -> (r: String)
    ensures
        r@ == member(key@, value@),
{
    proof {
        reveal_strlit("\"");
        reveal_strlit("\":");
    }
    let mut out = String::from_str("\"");
    out.append(key);
    out.append("\":");
    out.append(value.as_str());
    assert(out@ =~= member(key@, value@));
    out
}

/// Appends the member `key` to `members` when a value is present.
pub fn push_optional(members: &mut Vec<String>, key: &str, value: Option<String>)
    ensures
        texts(final(members)@) == texts(old(members)@) + optional(key@, value.deep_view()),
{
    match value {
        Some(v) => {
            let m = encode_member(key, v);
            members.push(m);
        },
        None => {},
    }
    assert(texts(members@) =~= texts(old(members)@) + optional(key@, value.deep_view()));
}

/// The JSON literal of a flag.
pub fn encode_boolean(b: bool) -> (r: String)
    ensures
        r@ == boolean(b),
{
    if b {
        String::from_str("true")
    } else {
        String::from_str("false")
    }
}

/// The JSON numeral of an integer.
pub fn encode_decimal(n: u32) -> (r: String)
    ensures
        r@ == decimal(n as nat),
{
    let mut out = String::new();
    push_decimal(&mut out, n);
    assert(out@ =~= decimal(n as nat));
    out
}

} // verus!
