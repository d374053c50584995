//! The parameter encoder.
//!
//! A request body is a JSON-like tagged tree: object, array, string, integer,
//! boolean or null. [`flatten`] turns such a tree into the flat key/value
//! wire form the API expects, recursively: an object field named `k` under
//! prefix `p` gets the field name `p[k]` (`k` at the root), an array element
//! at index `i` under name `n` gets `n[i]`, scalars emit one pair holding
//! their canonical text, and null fields are omitted entirely. The encoding
//! is a pure function of the value, so every retry of a request re-encodes
//! the same body identically.

use vstd::prelude::*;
use vstd::string::StringSliceAdditionalSpecFns;

use crate::strutil::push_char;
use crate::strutil::spec_dec_chars;
use crate::strutil::spec_dec_chars_signed;
use crate::strutil::i64_to_string;
use crate::strutil::u64_to_string;

verus! {

/// A JSON-like value: the input of the encoder.
#[derive(Debug)]
pub enum FormValue {
    /// An object: named fields in order.
    Object(Vec<(String, FormValue)>),
    /// An array of values.
    Array(Vec<FormValue>),
    /// A string, emitted unescaped and unquoted.
    Text(String),
    /// A signed integer, emitted as its decimal numeral.
    Int(i64),
    /// An unsigned integer, emitted as its decimal numeral.
    UInt(u64),
    /// A boolean, emitted as `true` or `false`.
    Boolean(bool),
    /// Null: the field is omitted, not emitted as empty.
    Null,
}

/// The full field name of `key` under `prefix`: `key` at the root, else
/// `prefix[key]`.
pub open spec fn spec_field_name(prefix: Seq<char>, key: Seq<char>) -> Seq<char> {
    if prefix.len() == 0 {
        key
    } else {
        prefix + seq!['['] + key + seq![']']
    }
}

/// The field name of the array element at index `idx` under `name`:
/// `name[idx]`.
pub open spec fn spec_item_name(name: Seq<char>, idx: nat) -> Seq<char> {
    name + seq!['['] + spec_dec_chars(idx) + seq![']']
}

/// The canonical text of a scalar value.
pub open spec fn spec_atom_chars(v: FormValue) -> Seq<char> {
    match v {
        FormValue::Text(s) => s@,
        FormValue::Int(i) => spec_dec_chars_signed(i as int),
        FormValue::UInt(u) => spec_dec_chars(u as nat),
        FormValue::Boolean(b) => if b {
            "true"@
        } else {
            "false"@
        },
        _ => Seq::empty(),
    }
}

/// The flattened form of a value under a field name: objects and arrays
/// recurse, null emits nothing, scalars emit one pair.
pub open spec fn spec_flatten_value(v: FormValue, name: Seq<char>) -> Seq<(Seq<char>, Seq<char>)>
    decreases v,
{
    match v {
        FormValue::Object(entries) => spec_flatten_entries(entries@, name),
        FormValue::Array(items) => spec_flatten_items(items@, name, 0),
        FormValue::Null => Seq::empty(),
        _ => seq![(name, spec_atom_chars(v))],
    }
}

/// The flattened form of an object's fields under a prefix, in field order.
pub open spec fn spec_flatten_entries(
    entries: Seq<(String, FormValue)>,
    prefix: Seq<char>,
) -> Seq<(Seq<char>, Seq<char>)>
    decreases entries,
{
    if entries.len() == 0 {
        Seq::empty()
    } else {
        spec_flatten_value(entries[0].1, spec_field_name(prefix, entries[0].0@))
            + spec_flatten_entries(entries.drop_first(), prefix)
    }
}

/// The flattened form of an array's elements under a name, the first element
/// carrying index `start`.
pub open spec fn spec_flatten_items(
    items: Seq<FormValue>,
    name: Seq<char>,
    start: nat,
) -> Seq<(Seq<char>, Seq<char>)>
    decreases items,
{
    if items.len() == 0 {
        Seq::empty()
    } else {
        spec_flatten_value(items[0], spec_item_name(name, start)) + spec_flatten_items(
            items.drop_first(),
            name,
            start + 1,
        )
    }
}

/// The character-level view of a list of string pairs.
pub open spec fn spec_pairs(pairs: Seq<(String, String)>) -> Seq<(Seq<char>, Seq<char>)> {
    pairs.map_values(|p: (String, String)| (p.0@, p.1@))
}

/// Builds the full field name of `key` under `prefix`.
fn make_field_name(prefix: &str, key: &str) -> (r: String)
    ensures
        r@ == spec_field_name(prefix@, key@),
{
    if prefix.is_empty() {
        key.to_owned()
    } else {
        let mut s = prefix.to_owned();
        push_char(&mut s, '[');
        let mut s = s.concat(key);
        push_char(&mut s, ']');
        assert(s@ =~= spec_field_name(prefix@, key@));
        s
    }
}

/// Builds the field name of the array element at index `idx` under `name`.
fn make_item_name(name: &str, idx: u64) -> (r: String)
    ensures
        r@ == spec_item_name(name@, idx as nat),
{
    let mut s = name.to_owned();
    push_char(&mut s, '[');
    let digits = u64_to_string(idx);
    let mut s = s.concat(digits.as_str());
    push_char(&mut s, ']');
    assert(s@ =~= spec_item_name(name@, idx as nat));
    s
}

/// Renders a scalar value as its canonical text.
fn atom_string(v: &FormValue) -> (r: String)
    requires
        !(v matches FormValue::Object(_)),
        !(v matches FormValue::Array(_)),
        !(v matches FormValue::Null),
    ensures
        r@ == spec_atom_chars(*v),
{
    match v {
        FormValue::Text(s) => s.clone(),
        FormValue::Int(i) => i64_to_string(*i),
        FormValue::UInt(u) => u64_to_string(*u),
        FormValue::Boolean(b) => {
            if *b {
                String::from_str("true")
            } else {
                String::from_str("false")
            }
        },
        _ => {
            proof {
                assert(false);
            }
            String::new()
        },
    }
}

/// Appends the flattened form of `v` under `name` to `out`.
fn flatten_value(v: &FormValue, name: &str, out: &mut Vec<(String, String)>)
    ensures
        spec_pairs(final(out)@) == spec_pairs(old(out)@) + spec_flatten_value(*v, name@),
    decreases *v,
{
    match v {
        FormValue::Object(entries) => {
            let ghost all = entries@;
            let n = entries.len();
            let mut i: usize = 0;
            proof {
                assert(spec_flatten_entries(all.subrange(0, 0), name@) == Seq::<(
                    Seq<char>,
                    Seq<char>,
                )>::empty());
                assert(spec_pairs(out@) =~= spec_pairs(out@) + spec_flatten_entries(
                    all.subrange(0, 0),
                    name@,
                ));
            }
            while i < n
                invariant
                    i <= n,
                    n == all.len(),
                    entries@ == all,
                    v == FormValue::Object(*entries),
                    spec_pairs(out@) == spec_pairs(old(out)@) + spec_flatten_entries(
                        all.subrange(0, i as int),
                        name@,
                    ),
                decreases n - i,
            {
                let key = &entries[i].0;
                let child = &entries[i].1;
                let child_name = make_field_name(name, key.as_str());
                proof {
                    assert(decreases_to!(*v => v->Object_0));
                    assert(decreases_to!(v->Object_0 => v->Object_0@));
                    assert(v->Object_0@ == all);
                    assert(decreases_to!(all => all[i as int]));
                    assert(decreases_to!(all[i as int] => all[i as int].1));
                    assert(decreases_to!(*v => all[i as int].1));
                }
                flatten_value(child, child_name.as_str(), out);
                proof {
                    lemma_flatten_entries_snoc(all, name@, i as int);
                }
                i = i + 1;
            }
            proof {
                assert(all.subrange(0, n as int) =~= all);
            }
        },
        FormValue::Array(items) => {
            let ghost all = items@;
            let n = items.len();
            let mut i: usize = 0;
            proof {
                assert(spec_pairs(out@) =~= spec_pairs(out@) + spec_flatten_items(
                    all.subrange(0, 0),
                    name@,
                    0,
                ));
            }
            while i < n
                invariant
                    i <= n,
                    n == all.len(),
                    n <= u64::MAX,
                    items@ == all,
                    v == FormValue::Array(*items),
                    spec_pairs(out@) == spec_pairs(old(out)@) + spec_flatten_items(
                        all.subrange(0, i as int),
                        name@,
                        0,
                    ),
                decreases n - i,
            {
                let child = &items[i];
                let child_name = make_item_name(name, i as u64);
                proof {
                    assert(decreases_to!(*v => v->Array_0));
                    assert(decreases_to!(v->Array_0 => v->Array_0@));
                    assert(v->Array_0@ == all);
                    assert(decreases_to!(all => all[i as int]));
                    assert(decreases_to!(*v => all[i as int]));
                }
                flatten_value(child, child_name.as_str(), out);
                proof {
                    lemma_flatten_items_snoc(all, name@, i as int);
                }
                i = i + 1;
            }
            proof {
                assert(all.subrange(0, n as int) =~= all);
            }
        },
        FormValue::Null => {
            proof {
                assert(spec_pairs(out@) =~= spec_pairs(out@) + spec_flatten_value(*v, name@));
            }
        },
        _ => {
            let text = atom_string(v);
            out.push((name.to_owned(), text));
            proof {
                assert(spec_pairs(out@) =~= spec_pairs(old(out)@) + spec_flatten_value(*v, name@));
            }
        },
    }
}

/// Appending one more field extends the flattened form of an object's first
/// fields by that field's own flattened form.
proof fn lemma_flatten_entries_snoc(entries: Seq<(String, FormValue)>, prefix: Seq<char>, i: int)
    requires
        0 <= i < entries.len(),
    ensures
        spec_flatten_entries(entries.subrange(0, i + 1), prefix) == spec_flatten_entries(
            entries.subrange(0, i),
            prefix,
        ) + spec_flatten_value(entries[i].1, spec_field_name(prefix, entries[i].0@)),
    decreases i,
{
    if i == 0 {
        assert(entries.subrange(0, 1).drop_first() =~= entries.subrange(0, 0));
        assert(spec_flatten_entries(entries.subrange(0, 0), prefix) == Seq::<(
            Seq<char>,
            Seq<char>,
        )>::empty());
        assert(spec_flatten_entries(entries.subrange(0, 1), prefix) =~= spec_flatten_entries(
            entries.subrange(0, 0),
            prefix,
        ) + spec_flatten_value(entries[0].1, spec_field_name(prefix, entries[0].0@)));
    } else {
        lemma_flatten_entries_snoc(entries.drop_first(), prefix, i - 1);
        assert(entries.subrange(0, i + 1).drop_first() =~= entries.drop_first().subrange(0, i));
        assert(entries.subrange(0, i).drop_first() =~= entries.drop_first().subrange(0, i - 1));
        assert(entries.subrange(0, i + 1)[0] == entries[0]);
        assert(entries.subrange(0, i)[0] == entries[0]);
        assert(entries.drop_first()[i - 1] == entries[i]);
        assert(spec_flatten_entries(entries.subrange(0, i + 1), prefix) =~= spec_flatten_entries(
            entries.subrange(0, i),
            prefix,
        ) + spec_flatten_value(entries[i].1, spec_field_name(prefix, entries[i].0@)));
    }
}

/// Appending one more element extends the flattened form of an array's first
/// elements by that element's own flattened form.
proof fn lemma_flatten_items_snoc(items: Seq<FormValue>, name: Seq<char>, i: int)
    requires
        0 <= i < items.len(),
    ensures
        spec_flatten_items(items.subrange(0, i + 1), name, 0) == spec_flatten_items(
            items.subrange(0, i),
            name,
            0,
        ) + spec_flatten_value(items[i], spec_item_name(name, i as nat)),
{
    lemma_flatten_items_snoc_at(items, name, i, 0);
}

/// As [`lemma_flatten_items_snoc`], for any starting index.
proof fn lemma_flatten_items_snoc_at(items: Seq<FormValue>, name: Seq<char>, i: int, start: nat)
    requires
        0 <= i < items.len(),
    ensures
        spec_flatten_items(items.subrange(0, i + 1), name, start) == spec_flatten_items(
            items.subrange(0, i),
            name,
            start,
        ) + spec_flatten_value(items[i], spec_item_name(name, start + i as nat)),
    decreases i,
{
    if i == 0 {
        assert(items.subrange(0, 1).drop_first() =~= items.subrange(0, 0));
        assert(items.subrange(0, 1)[0] == items[0]);
        assert(spec_flatten_items(items.subrange(0, 0), name, start) == Seq::<(
            Seq<char>,
            Seq<char>,
        )>::empty());
        assert(spec_flatten_items(items.subrange(0, 0), name, start + 1) == Seq::<(
            Seq<char>,
            Seq<char>,
        )>::empty());
        assert(spec_flatten_items(items.subrange(0, 1), name, start) =~= spec_flatten_items(
            items.subrange(0, 0),
            name,
            start,
        ) + spec_flatten_value(items[0], spec_item_name(name, start)));
    } else {
        lemma_flatten_items_snoc_at(items.drop_first(), name, i - 1, start + 1);
        assert(items.subrange(0, i + 1).drop_first() =~= items.drop_first().subrange(0, i));
        assert(items.subrange(0, i).drop_first() =~= items.drop_first().subrange(0, i - 1));
        assert(items.subrange(0, i + 1)[0] == items[0]);
        assert(items.subrange(0, i)[0] == items[0]);
        assert(items.drop_first()[i - 1] == items[i]);
        assert(spec_flatten_items(items.subrange(0, i + 1), name, start) =~= spec_flatten_items(
            items.subrange(0, i),
            name,
            start,
        ) + spec_flatten_value(items[i], spec_item_name(name, start + i as nat)));
    }
}

/// Flattens a request body into its ordered key/value wire form.
pub fn flatten(v: &FormValue) -> (r: Vec<(String, String)>)
    ensures
        spec_pairs(r@) == spec_flatten_value(*v, Seq::<char>::empty()),
{
    let mut out: Vec<(String, String)> = Vec::new();
    proof {
        assert(spec_pairs(out@) =~= Seq::<(Seq<char>, Seq<char>)>::empty());
    }
    flatten_value(v, "", &mut out);
    proof {
        reveal_strlit("");
        assert(""@ =~= Seq::<char>::empty());
    }
    out
}

/// A request body ready for the wire: either a flattened form, or — when
/// the root is not an object or array — one opaque value.
#[derive(Debug, PartialEq, Eq)]
pub enum EncodedBody {
    /// The flattened key/value form of an object or array root.
    Form(Vec<(String, String)>),
    /// The canonical text of a scalar root; empty for a null root.
    Opaque(String),
}

/// Encodes a request body: an object or array root is flattened into form
/// pairs; any other root is treated as a single opaque body holding its
/// canonical text, which is empty for null.
pub fn encode_body(v: &FormValue) -> (r: EncodedBody)
    ensures
        (v matches FormValue::Object(_) || v matches FormValue::Array(_)) ==> (r matches
            EncodedBody::Form(pairs) && spec_pairs(pairs@) == spec_flatten_value(
            *v,
            Seq::<char>::empty(),
        )),
        v matches FormValue::Null ==> (r matches EncodedBody::Opaque(s) && s@ == Seq::<
            char,
        >::empty()),
        !(v matches FormValue::Object(_)) && !(v matches FormValue::Array(_)) && !(v matches
            FormValue::Null) ==> (r matches EncodedBody::Opaque(s) && s@ == spec_atom_chars(*v)),
{
    match v {
        FormValue::Object(_) => EncodedBody::Form(flatten(v)),
        FormValue::Array(_) => EncodedBody::Form(flatten(v)),
        FormValue::Null => EncodedBody::Opaque(String::new()),
        _ => EncodedBody::Opaque(atom_string(v)),
    }
}


/// The character for a hexadecimal digit, upper case.
pub open spec fn spec_hex_char(d: nat) -> char {
    if d == 0 {
        '0'
    } else if d == 1 {
        '1'
    } else if d == 2 {
        '2'
    } else if d == 3 {
        '3'
    } else if d == 4 {
        '4'
    } else if d == 5 {
        '5'
    } else if d == 6 {
        '6'
    } else if d == 7 {
        '7'
    } else if d == 8 {
        '8'
    } else if d == 9 {
        '9'
    } else if d == 10 {
        'A'
    } else if d == 11 {
        'B'
    } else if d == 12 {
        'C'
    } else if d == 13 {
        'D'
    } else if d == 14 {
        'E'
    } else {
        'F'
    }
}

/// The bytes that stay bare in form encoding: ASCII alphanumerics and
/// `*`, `-`, `.`, `_`.
pub open spec fn spec_form_bare_byte(b: u8) -> bool {
    (48 <= b && b <= 57) || (65 <= b && b <= 90) || (97 <= b && b <= 122) || b == 42 || b == 45
        || b == 46 || b == 95
}

/// The form encoding of one byte: a space becomes `+`, a bare byte stands
/// for itself, and every other byte becomes `%` and two upper-case hex
/// digits.
pub open spec fn spec_form_byte_chars(b: u8) -> Seq<char> {
    if b == 32 {
        seq!['+']
    } else if spec_form_bare_byte(b) {
        seq![b as char]
    } else {
        seq!['%', spec_hex_char((b / 16) as nat), spec_hex_char((b % 16) as nat)]
    }
}

/// The form encoding of a byte sequence.
pub open spec fn spec_form_bytes_chars(bs: Seq<u8>) -> Seq<char>
    decreases bs.len(),
{
    if bs.len() == 0 {
        Seq::empty()
    } else {
        spec_form_bytes_chars(bs.drop_last()) + spec_form_byte_chars(bs.last())
    }
}

/// The form encoding of one key/value pair: encoded key, `=`, encoded value,
/// over the UTF-8 bytes of each.
pub open spec fn spec_form_pair_chars(pair: (String, String)) -> Seq<char> {
    spec_form_bytes_chars(vstd::utf8::encode_utf8(pair.0@)) + seq!['=']
        + spec_form_bytes_chars(vstd::utf8::encode_utf8(pair.1@))
}

/// The form-urlencoded body for a list of pairs: the encoded pairs joined by
/// `&`.
pub open spec fn spec_form_urlencoded(pairs: Seq<(String, String)>) -> Seq<char>
    decreases pairs.len(),
{
    if pairs.len() == 0 {
        Seq::empty()
    } else if pairs.len() == 1 {
        spec_form_pair_chars(pairs[0])
    } else {
        spec_form_urlencoded(pairs.drop_last()) + seq!['&'] + spec_form_pair_chars(pairs.last())
    }
}

fn hex_char(d: u8) -> (c: char)
    requires
        d < 16,
    ensures
        c == spec_hex_char(d as nat),
{
    if d == 0 {
        '0'
    } else if d == 1 {
        '1'
    } else if d == 2 {
        '2'
    } else if d == 3 {
        '3'
    } else if d == 4 {
        '4'
    } else if d == 5 {
        '5'
    } else if d == 6 {
        '6'
    } else if d == 7 {
        '7'
    } else if d == 8 {
        '8'
    } else if d == 9 {
        '9'
    } else if d == 10 {
        'A'
    } else if d == 11 {
        'B'
    } else if d == 12 {
        'C'
    } else if d == 13 {
        'D'
    } else if d == 14 {
        'E'
    } else {
        'F'
    }
}

/// Appends the form encoding of a string's UTF-8 bytes.
fn append_form_component(out: &mut String, s: &str)
    ensures
        final(out)@ == old(out)@ + spec_form_bytes_chars(s.spec_bytes()),
{
    let bytes = s.as_bytes_vec();
    let n = bytes.len();
    let mut i: usize = 0;
    proof {
        assert(out@ =~= out@ + spec_form_bytes_chars(bytes@.subrange(0, 0)));
    }
    while i < n
        invariant
            i <= n,
            n == bytes@.len(),
            bytes@ == s.spec_bytes(),
            out@ == old(out)@ + spec_form_bytes_chars(bytes@.subrange(0, i as int)),
        decreases n - i,
    {
        let b = bytes[i];
        if b == 32 {
            push_char(out, '+');
        } else if (48 <= b && b <= 57) || (65 <= b && b <= 90) || (97 <= b && b <= 122) || b == 42
            || b == 45 || b == 46 || b == 95 {
            push_char(out, b as char);
        } else {
            push_char(out, '%');
            push_char(out, hex_char(b / 16));
            push_char(out, hex_char(b % 16));
        }
        proof {
            assert(bytes@.subrange(0, i as int + 1).drop_last() =~= bytes@.subrange(0, i as int));
            assert(bytes@.subrange(0, i as int + 1).last() == b);
            assert(out@ =~= old(out)@ + spec_form_bytes_chars(bytes@.subrange(0, i as int + 1)));
        }
        i = i + 1;
    }
    proof {
        assert(bytes@.subrange(0, n as int) =~= bytes@);
    }
}

/// Assembles flattened pairs into an `application/x-www-form-urlencoded`
/// body: keys and values percent-encoded over their UTF-8 bytes and joined
/// as `key=value` pairs separated by `&`.
pub fn form_urlencode(pairs: &Vec<(String, String)>) -> (r: String)
    ensures
        r@ == spec_form_urlencoded(pairs@),
{
    let n = pairs.len();
    let mut out = String::new();
    let mut i: usize = 0;
    proof {
        assert(out@ =~= spec_form_urlencoded(pairs@.subrange(0, 0)));
    }
    while i < n
        invariant
            i <= n,
            n == pairs@.len(),
            out@ == spec_form_urlencoded(pairs@.subrange(0, i as int)),
        decreases n - i,
    {
        if i > 0 {
            push_char(&mut out, '&');
        }
        let ghost mid = out@;
        append_form_component(&mut out, pairs[i].0.as_str());
        push_char(&mut out, '=');
        append_form_component(&mut out, pairs[i].1.as_str());
        proof {
            assert(out@ =~= mid + spec_form_pair_chars(pairs@[i as int]));
            assert(pairs@.subrange(0, i as int + 1).drop_last() =~= pairs@.subrange(0, i as int));
            assert(pairs@.subrange(0, i as int + 1).last() == pairs@[i as int]);
            if i > 0 {
                assert(out@ =~= spec_form_urlencoded(pairs@.subrange(0, i as int + 1)));
            } else {
                assert(pairs@.subrange(0, 1)[0] == pairs@[0]);
                assert(out@ =~= spec_form_urlencoded(pairs@.subrange(0, 1)));
            }
        }
        i = i + 1;
    }
    proof {
        assert(pairs@.subrange(0, n as int) =~= pairs@);
    }
    out
}

/// Flattening is a pure function of the value: two flattenings of equal
/// values yield the same pairs in the same order, and hence the same pair
/// set. In particular, flattening a nested object twice yields identical
/// pair sets.
pub proof fn lemma_flatten_deterministic(a: FormValue, b: FormValue)
    requires
        a == b,
    ensures
        spec_flatten_value(a, Seq::<char>::empty()) == spec_flatten_value(
            b,
            Seq::<char>::empty(),
        ),
        spec_flatten_value(a, Seq::<char>::empty()).to_multiset() == spec_flatten_value(
            b,
            Seq::<char>::empty(),
        ).to_multiset(),
{
}

} // verus!
