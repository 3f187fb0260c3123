//! Text helpers shared by the request builders: decimal rendering, string
//! comparison and key/value pairs.
use vstd::prelude::*;
use vstd::string::*;

verus! {

/// The character of a decimal digit.
pub open spec fn digit_char(d: nat) -> char {
    if d == 0 {
        '0'
    } else if d == 1 {
        '1'
    } else if d == 2 {
        '2'
    } else if d == 3 {
        '3'
    } else if d == 4 {
        '4'
    } else if d == 5 {
        '5'
    } else if d == 6 {
        '6'
    } else if d == 7 {
        '7'
    } else if d == 8 {
        '8'
    } else {
        '9'
    }
}

/// Plain decimal text of a natural number, most significant digit first.
pub open spec fn decimal(n: nat) -> Seq<char>
    decreases n,
{
    if n < 10 {
        seq![digit_char(n)]
    } else {
        decimal(n / 10).push(digit_char(n % 10))
    }
}

fn digit_str(d: u64) -> (r: &'static str)
    requires
        d < 10,
    ensures
        r@ == seq![digit_char(d as nat)],
{
    proof {
        reveal_strlit("0");
        reveal_strlit("1");
        reveal_strlit("2");
        reveal_strlit("3");
        reveal_strlit("4");
        reveal_strlit("5");
        reveal_strlit("6");
        reveal_strlit("7");
        reveal_strlit("8");
        reveal_strlit("9");
    }
    if d == 0 {
        "0"
    } else if d == 1 {
        "1"
    } else if d == 2 {
        "2"
    } else if d == 3 {
        "3"
    } else if d == 4 {
        "4"
    } else if d == 5 {
        "5"
    } else if d == 6 {
        "6"
    } else if d == 7 {
        "7"
    } else if d == 8 {
        "8"
    } else {
        "9"
    }
}

/// Renders `n` as plain decimal text.
pub fn u64_to_decimal(n: u64) -> (r: String)
    ensures
        r@ == decimal(n as nat),
    decreases n,
{
    if n < 10 {
        String::from_str(digit_str(n))
    } else {
        let mut s = u64_to_decimal(n / 10);
        s.append(digit_str(n % 10));
        s
    }
}

/// Renders a signed integer as decimal text, with a leading `-` when negative.
pub open spec fn signed_decimal(v: int) -> Seq<char> {
    if v < 0 {
        seq!['-'] + decimal((-v) as nat)
    } else {
        decimal(v as nat)
    }
}

/// Renders `v` as decimal text.
pub fn i64_to_decimal(v: i64) -> (r: String)
    ensures
        r@ == signed_decimal(v as int),
{
    if v < 0 {
        let m: u64 = (0i128 - v as i128) as u64;
        let digits = u64_to_decimal(m);
        let mut s = String::from_str("-");
        proof {
            reveal_strlit("-");
        }
        s.append(digits.as_str());
        s
    } else {
        u64_to_decimal(v as u64)
    }
}

/// `true` or `false`, as Rust and JSON write a boolean.
pub open spec fn bool_text(b: bool) -> Seq<char> {
    if b {
        "true"@
    } else {
        "false"@
    }
}

/// Renders a boolean as `true` or `false`.
pub fn bool_to_text(b: bool) -> (r: String)
    ensures
        r@ == bool_text(b),
{
    if b {
        String::from_str("true")
    } else {
        String::from_str("false")
    }
}

/// Compares two strings character by character.
pub fn str_eq(a: &str, b: &str) -> (r: bool)
    ensures
        r == (a@ == b@),
{
    let n = a.unicode_len();
    let m = b.unicode_len();
    if n != m {
        return false;
    }
    let mut i: usize = 0;
    while i < n
        invariant
            n == a@.len(),
            m == b@.len(),
            n == m,
            i <= n,
            forall|j: int| 0 <= j < i ==> a@[j] == b@[j],
        decreases n - i,
    {
        if a.get_char(i) != b.get_char(i) {
            return false;
        }
        i = i + 1;
    }
    assert(a@ =~= b@);
    true
}

/// Concatenates two strings.
pub fn concat(a: &str, b: &str) -> (r: String)
    ensures
        r@ == a@ + b@,
{
    let mut s = String::from_str(a);
    s.append(b);
    s
}

/// The text of a key/value pair.
pub open spec fn kv(p: (String, String)) -> (Seq<char>, Seq<char>) {
    (p.0@, p.1@)
}

/// The text of a list of key/value pairs, in order.
pub open spec fn pairs(v: Seq<(String, String)>) -> Seq<(Seq<char>, Seq<char>)> {
    v.map_values(|p: (String, String)| kv(p))
}

/// The pair `(k, v)` when `v` is present, and nothing otherwise.
pub open spec fn opt_pair(k: Seq<char>, v: Option<String>) -> Seq<(Seq<char>, Seq<char>)> {
    match v {
        Some(s) => seq![(k, s@)],
        None => seq![],
    }
}

/// The text of an optional string.
pub open spec fn opt_text(v: Option<String>) -> Option<Seq<char>> {
    match v {
        Some(s) => Some(s@),
        None => None,
    }
}

/// Appends the pair `(k, v)`.
pub fn push_pair(q: &mut Vec<(String, String)>, k: &str, v: String)
    ensures
        pairs(final(q)@) == pairs(old(q)@).push((k@, v@)),
{
    let ghost before = q@;
    q.push((String::from_str(k), v));
    assert(pairs(q@) =~= pairs(before).push((k@, v@)));
}

/// Appends the pair `(k, v)` when `v` is present.
pub fn push_opt(q: &mut Vec<(String, String)>, k: &str, v: &Option<String>)
    ensures
        pairs(final(q)@) == pairs(old(q)@) + opt_pair(k@, *v),
{
    match v {
        Some(s) => {
            push_pair(q, k, s.clone());
            assert(pairs(q@) =~= pairs(old(q)@) + opt_pair(k@, *v));
        },
        None => {
            assert(pairs(q@) =~= pairs(old(q)@) + opt_pair(k@, *v));
        },
    }
}

/// A list that holds the one pair `(k, v)`.
pub fn single_pair(k: &str, v: String) -> (r: Vec<(String, String)>)
    ensures
        pairs(r@) == seq![(k@, v@)],
{
    let mut q: Vec<(String, String)> = Vec::new();
    push_pair(&mut q, k, v);
    assert(pairs(q@) =~= seq![(k@, v@)]);
    q
}

/// A lower-case hexadecimal digit.
pub open spec fn hex_digit(d: nat) -> char {
    if d < 10 {
        digit_char(d)
    } else if d == 10 {
        'a'
    } else if d == 11 {
        'b'
    } else if d == 12 {
        'c'
    } else if d == 13 {
        'd'
    } else if d == 14 {
        'e'
    } else {
        'f'
    }
}

/// How one character is written inside a JSON string: `"` and `\` with a
/// backslash, the control characters as `\b \t \n \f \r` or `\u00xx`, and
/// every other character as it is.
pub open spec fn escape_char(c: char) -> Seq<char> {
    let n = c as u32;
    if c == '"' {
        seq!['\\', '"']
    } else if c == '\\' {
        seq!['\\', '\\']
    } else if n == 8 {
        seq!['\\', 'b']
    } else if n == 9 {
        seq!['\\', 't']
    } else if n == 10 {
        seq!['\\', 'n']
    } else if n == 12 {
        seq!['\\', 'f']
    } else if n == 13 {
        seq!['\\', 'r']
    } else if n < 32 {
        seq!['\\', 'u', '0', '0', hex_digit((n / 16) as nat), hex_digit((n % 16) as nat)]
    } else {
        seq![c]
    }
}

/// The characters of a string, each written as inside a JSON string.
pub open spec fn escaped(s: Seq<char>) -> Seq<char>
    decreases s.len(),
{
    if s.len() == 0 {
        seq![]
    } else {
        escaped(s.drop_last()) + escape_char(s.last())
    }
}

/// JSON text of a string: the string quoted and escaped as JSON writes it.
pub open spec fn json_string(s: Seq<char>) -> Seq<char> {
    seq!['"'] + escaped(s) + seq!['"']
}

/// Relies on `serde_json::to_string` for a `&str` (its `format_escaped_str`
/// and `ESCAPE` table): `s` in double quotes, each character escaped as
/// [`escape_char`] says. Writing a string into memory does not fail.
#[verifier::external_body]
pub(crate) fn json_quote(s: &str) -> (r: String)
    ensures
        r@ == json_string(s@),
{
    match serde_json::to_string(s) {
        Ok(t) => t,
        Err(_) => String::new(),
    }
}

/// The pair `(k, decimal of v)` when `v` is present, and nothing otherwise.
pub open spec fn opt_num_pair(k: Seq<char>, v: Option<u32>) -> Seq<(Seq<char>, Seq<char>)> {
    match v {
        Some(n) => seq![(k, decimal(n as nat))],
        None => seq![],
    }
}

/// Appends the pair `(k, decimal of v)` when `v` is present.
pub fn push_opt_num(q: &mut Vec<(String, String)>, k: &str, v: Option<u32>)
    ensures
        pairs(final(q)@) == pairs(old(q)@) + opt_num_pair(k@, v),
{
    match v {
        Some(n) => {
            push_pair(q, k, u64_to_decimal(n as u64));
            assert(pairs(q@) =~= pairs(old(q)@) + opt_num_pair(k@, v));
        },
        None => {
            assert(pairs(q@) =~= pairs(old(q)@) + opt_num_pair(k@, v));
        },
    }
}

/// One member `"key":value` of a JSON object, the value already JSON text.
pub open spec fn member(p: (Seq<char>, Seq<char>)) -> Seq<char> {
    "\""@ + p.0 + "\":"@ + p.1
}

/// The members of a JSON object, separated by commas.
pub open spec fn members(f: Seq<(Seq<char>, Seq<char>)>) -> Seq<char>
    decreases f.len(),
{
    if f.len() == 0 {
        seq![]
    } else if f.len() == 1 {
        member(f[0])
    } else {
        members(f.drop_last()) + ","@ + member(f.last())
    }
}

/// A JSON object of the given members, in order, without spaces.
pub open spec fn json_object(f: Seq<(Seq<char>, Seq<char>)>) -> Seq<char> {
    "{"@ + members(f) + "}"@
}

/// Writes a JSON object whose members are the given keys and JSON values.
pub fn object_text(fields: &Vec<(String, String)>) -> (r: String)
    ensures
        r@ == json_object(pairs(fields@)),
{
    let mut s = String::from_str("{");
    let mut i: usize = 0;
    while i < fields.len()
        invariant
            i <= fields@.len(),
            s@ == "{"@ + members(pairs(fields@).subrange(0, i as int)),
        decreases fields@.len() - i,
    {
        let ghost prev = pairs(fields@).subrange(0, i as int);
        let ghost next = pairs(fields@).subrange(0, i as int + 1);
        assert(next.drop_last() =~= prev);
        if i > 0 {
            s.append(",");
        }
        s.append("\"");
        s.append(fields[i].0.as_str());
        s.append("\":");
        s.append(fields[i].1.as_str());
        proof {
            reveal_strlit(",");
            reveal_strlit("\"");
            reveal_strlit("\":");
            reveal_strlit("{");
            if i == 0 {
                assert(members(prev) =~= seq![]);
            }
            assert(next.last() == kv(fields@[i as int]));
        }
        i = i + 1;
    }
    assert(pairs(fields@).subrange(0, fields@.len() as int) =~= pairs(fields@));
    s.append("}");
    s
}

/// A string member when the value is present.
pub open spec fn opt_str_field(k: Seq<char>, v: Option<String>) -> Seq<(Seq<char>, Seq<char>)> {
    match v {
        Some(s) => seq![(k, json_string(s@))],
        None => seq![],
    }
}

/// A boolean member when the value is present.
pub open spec fn opt_bool_field(k: Seq<char>, v: Option<bool>) -> Seq<(Seq<char>, Seq<char>)> {
    match v {
        Some(b) => seq![(k, bool_text(b))],
        None => seq![],
    }
}

/// Appends a string member when the value is present.
pub fn push_str_field(f: &mut Vec<(String, String)>, k: &str, v: &Option<String>)
    ensures
        pairs(final(f)@) == pairs(old(f)@) + opt_str_field(k@, *v),
{
    match v {
        Some(s) => {
            push_pair(f, k, json_quote(s.as_str()));
            assert(pairs(f@) =~= pairs(old(f)@) + opt_str_field(k@, *v));
        },
        None => {
            assert(pairs(f@) =~= pairs(old(f)@) + opt_str_field(k@, *v));
        },
    }
}

/// Appends a boolean member when the value is present.
pub fn push_bool_field(f: &mut Vec<(String, String)>, k: &str, v: Option<bool>)
    ensures
        pairs(final(f)@) == pairs(old(f)@) + opt_bool_field(k@, v),
{
    match v {
        Some(b) => {
            push_pair(f, k, bool_to_text(b));
            assert(pairs(f@) =~= pairs(old(f)@) + opt_bool_field(k@, v));
        },
        None => {
            assert(pairs(f@) =~= pairs(old(f)@) + opt_bool_field(k@, v));
        },
    }
}

/// Appends a member with an already written JSON value when it is present.
pub fn push_json_field(f: &mut Vec<(String, String)>, k: &str, v: Option<String>)
    ensures
        pairs(final(f)@) == pairs(old(f)@) + opt_pair(k@, v),
{
    match v {
        Some(s) => {
            push_pair(f, k, s);
            assert(pairs(f@) =~= pairs(old(f)@) + opt_pair(k@, v));
        },
        None => {
            assert(pairs(f@) =~= pairs(old(f)@) + opt_pair(k@, v));
        },
    }
}

/// One entry `"key":value` of a JSON map, the key quoted and escaped.
pub open spec fn entry(p: (Seq<char>, Seq<char>)) -> Seq<char> {
    json_string(p.0) + ":"@ + p.1
}

/// The entries of a JSON map, separated by commas.
pub open spec fn entries(f: Seq<(Seq<char>, Seq<char>)>) -> Seq<char>
    decreases f.len(),
{
    if f.len() == 0 {
        seq![]
    } else if f.len() == 1 {
        entry(f[0])
    } else {
        entries(f.drop_last()) + ","@ + entry(f.last())
    }
}

/// A JSON map of the given keys and JSON values, in order.
pub open spec fn json_map(f: Seq<(Seq<char>, Seq<char>)>) -> Seq<char> {
    "{"@ + entries(f) + "}"@
}

/// Writes a JSON map whose entries are the given keys and JSON values.
pub fn map_text(fields: &Vec<(String, String)>) -> (r: String)
    ensures
        r@ == json_map(pairs(fields@)),
{
    let mut s = String::from_str("{");
    let mut i: usize = 0;
    while i < fields.len()
        invariant
            i <= fields@.len(),
            s@ == "{"@ + entries(pairs(fields@).subrange(0, i as int)),
        decreases fields@.len() - i,
    {
        let ghost prev = pairs(fields@).subrange(0, i as int);
        let ghost next = pairs(fields@).subrange(0, i as int + 1);
        assert(next.drop_last() =~= prev);
        if i > 0 {
            s.append(",");
        }
        let k = json_quote(fields[i].0.as_str());
        s.append(k.as_str());
        s.append(":");
        s.append(fields[i].1.as_str());
        proof {
            reveal_strlit(",");
            reveal_strlit(":");
            reveal_strlit("{");
            if i == 0 {
                assert(entries(prev) =~= seq![]);
            }
            assert(next.last() == kv(fields@[i as int]));
        }
        i = i + 1;
    }
    assert(pairs(fields@).subrange(0, fields@.len() as int) =~= pairs(fields@));
    s.append("}");
    s
}

} // verus!
