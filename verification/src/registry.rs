//! The registry of modules that are given on the kernel's command line.
use vstd::prelude::*;
use vstd::string::{StrSliceExecFns, StringExecFns};

verus! {

/// A map from names to numbers.
#[verifier::external_body]
pub struct NameMap {
    map: hashbrown::HashMap<String, usize>,
}

/// The entries of a map from names.
pub uninterp spec fn name_map_entries(map: NameMap) -> Map<Seq<char>, usize>;

impl NameMap {
    /// Calls `hashbrown::HashMap::new`, whose result has no entries.
    #[verifier::external_body]
    pub(crate) fn new() -> (r: NameMap)
        ensures
            (name_map_entries(r) == Map::<Seq<char>, usize>::empty()),
    {
        NameMap { map: hashbrown::HashMap::new() }
    }

    /// Calls `hashbrown::HashMap::insert`, which stores a value under a name, in place of an
    /// earlier one, and keeps the other entries.
    #[verifier::external_body]
    pub(crate) fn insert(&mut self, name: String, value: usize)
        ensures
            name_map_entries(*final(self)) == name_map_entries(*old(self)).insert(name@, value),
    {
        self.map.insert(name, value);
    }

    /// Calls `hashbrown::HashMap::get`, which gives the value stored under a name, if there is one.
    #[verifier::external_body]
    pub(crate) fn get(&self, name: &str) -> (r: Option<usize>)
        ensures
            r == (if name_map_entries(*self).dom().contains(name@) {
                Some(name_map_entries(*self)[name@])
            } else {
                None
            }),
    {
        self.map.get(name).copied()
    }
}

/// An error of the base64 decoder.
#[verifier::external_type_specification]
#[verifier::external_body]
pub struct ExDecodeError(base64::DecodeError);

/// The character of a 6-bit number.
pub open spec fn base64_char(n: int) -> char {
    if n < 26 {
        ((0x41 + n) as u8) as char
    } else if n < 52 {
        ((0x61 + n - 26) as u8) as char
    } else if n < 62 {
        ((0x30 + n - 52) as u8) as char
    } else if n == 62 {
        '+'
    } else {
        '/'
    }
}

/// Bytes in base64: three bytes in four characters, and the last one or two bytes padded to four
/// characters.
pub open spec fn base64_encoded(bytes: Seq<u8>) -> Seq<char>
    decreases bytes.len(),
{
    if bytes.len() == 0 {
        Seq::empty()
    } else {
        let a = bytes[0] as int;
        if bytes.len() == 1 {
            seq![base64_char(a / 4), base64_char(a % 4 * 16), '=', '=']
        } else {
            let b = bytes[1] as int;
            if bytes.len() == 2 {
                seq![
                    base64_char(a / 4),
                    base64_char(a % 4 * 16 + b / 16),
                    base64_char(b % 16 * 4),
                    '=',
                ]
            } else {
                let c = bytes[2] as int;
                seq![
                    base64_char(a / 4),
                    base64_char(a % 4 * 16 + b / 16),
                    base64_char(b % 16 * 4 + c / 64),
                    base64_char(c % 64),
                ] + base64_encoded(bytes.skip(3))
            }
        }
    }
}

/// Different 6-bit numbers have different characters, and none is the padding.
proof fn lemma_base64_char(m: int, n: int)
    requires
        0 <= m < 64,
        0 <= n < 64,
    ensures
        base64_char(m) == base64_char(n) ==> m == n,
        base64_char(m) != '=',
{
}

/// Different bytes have different encodings, so that a text decodes to one result only.
pub proof fn base64_is_unambiguous(a: Seq<u8>, b: Seq<u8>)
    requires
        base64_encoded(a) == base64_encoded(b),
    ensures
        a == b,
    decreases a.len(),
{
    let (x, y) = (base64_encoded(a), base64_encoded(b));
    reveal_with_fuel(base64_encoded, 2);
    if a.len() == 0 || b.len() == 0 {
        assert(a.len() == 0 && b.len() == 0) by {
            if a.len() > 0 {
                assert(x.len() >= 4);
            }
            if b.len() > 0 {
                assert(y.len() >= 4);
            }
        }
        assert(a =~= b);
    } else {
        assert(x[0] == y[0] && x[1] == y[1] && x[2] == y[2] && x[3] == y[3]);
        let (a0, b0) = (a[0] as int, b[0] as int);
        lemma_base64_char(a0 / 4, b0 / 4);
        if a.len() >= 3 && b.len() >= 3 {
            let (a1, b1, a2, b2) = (a[1] as int, b[1] as int, a[2] as int, b[2] as int);
            lemma_base64_char(a0 % 4 * 16 + a1 / 16, b0 % 4 * 16 + b1 / 16);
            lemma_base64_char(a1 % 16 * 4 + a2 / 64, b1 % 16 * 4 + b2 / 64);
            lemma_base64_char(a2 % 64, b2 % 64);
            assert(x.skip(4) =~= base64_encoded(a.skip(3)));
            assert(y.skip(4) =~= base64_encoded(b.skip(3)));
            base64_is_unambiguous(a.skip(3), b.skip(3));
            assert forall|i: int| 0 <= i < a.len() implies a[i] == b[i] by {
                if i >= 3 {
                    assert(a[i] == a.skip(3)[i - 3]);
                    assert(b[i] == b.skip(3)[i - 3]);
                }
            }
            assert(a.len() == a.skip(3).len() + 3);
            assert(a =~= b);
        } else {
            if a.len() >= 3 {
                lemma_base64_char(a[2] as int % 64, 0);
            }
            if b.len() >= 3 {
                lemma_base64_char(b[2] as int % 64, 0);
            }
            if a.len() == 2 {
                lemma_base64_char(a[1] as int % 16 * 4, 0);
            }
            if b.len() == 2 {
                lemma_base64_char(b[1] as int % 16 * 4, 0);
            }
            assert(a.len() == b.len());
            if a.len() == 2 {
                let (a1, b1) = (a[1] as int, b[1] as int);
                lemma_base64_char(a0 % 4 * 16 + a1 / 16, b0 % 4 * 16 + b1 / 16);
                lemma_base64_char(a1 % 16 * 4, b1 % 16 * 4);
            } else {
                lemma_base64_char(a0 % 4 * 16, b0 % 4 * 16);
            }
            assert(a =~= b);
        }
    }
}

/// Calls `base64::Engine::decode_vec` of the standard engine, which accepts exactly what the
/// standard alphabet with padding encodes bytes as, and gives the bytes.
#[verifier::external_body]
fn base64_decode(text: &str) -> (r: Result<Vec<u8>, base64::DecodeError>)
    ensures
        r matches Ok(bytes) ==> base64_encoded(bytes@) == text@,
        r is Err ==> forall|bytes: Seq<u8>| #[trigger] base64_encoded(bytes) != text@,
{
    let mut bytes = Vec::new();
    base64::Engine::decode_vec(&base64::prelude::BASE64_STANDARD, text, &mut bytes)?;
    Ok(bytes)
}

/// Why a module could not be preloaded.
#[derive(Debug, Clone, Copy, PartialEq, Eq, Structural)]
pub enum PreloadError {
    /// A directive without a name.
    MalformedDirective,
    /// A module that is not in base64.
    Base64,
}

/// The modules that are registered, by name.
pub struct UnstableLocalRegistry {
    map: NameMap,
}

impl View for UnstableLocalRegistry {
    type V = Map<Seq<char>, usize>;

    closed spec fn view(&self) -> Map<Seq<char>, usize> {
        name_map_entries(self.map)
    }
}

impl UnstableLocalRegistry {
    /// A registry without modules.
    pub fn new() -> (r: Self)
        ensures
            r@ == Map::<Seq<char>, usize>::empty(),
    {
        UnstableLocalRegistry { map: NameMap::new() }
    }

    /// The bytes of a module that is given in base64.
    pub fn decode_base64(module_body_base64: &str) -> (r: Result<Vec<u8>, PreloadError>)
        ensures
            r matches Ok(bytes) ==> base64_encoded(bytes@) == module_body_base64@,
            r matches Err(e) ==> e is Base64 && forall|bytes: Seq<u8>| #[trigger]
                base64_encoded(bytes) != module_body_base64@,
    {
        match base64_decode(module_body_base64) {
            Ok(bytes) => Ok(bytes),
            Err(_) => Err(PreloadError::Base64),
        }
    }

    /// Registers a module under a name, in place of an earlier one.
    pub fn insert(&mut self, module_name: &str, module: usize)
        ensures
            final(self)@ == old(self)@.insert(module_name@, module),
    {
        self.map.insert(String::from_str(module_name), module);
    }

    /// The module that is registered under a name.
    pub fn get(&self, name: &str) -> (r: Option<usize>)
        ensures
            r == (if self@.dom().contains(name@) {
                Some(self@[name@])
            } else {
                None
            }),
    {
        self.map.get(name)
    }
}

/// Whether a character is white space.
pub open spec fn white(c: char) -> bool {
    let n = c as u32;
    0x9 <= n <= 0xd || n == 0x20 || n == 0x85 || n == 0xa0 || n == 0x1680 || 0x2000 <= n <= 0x200a
        || n == 0x2028 || n == 0x2029 || n == 0x202f || n == 0x205f || n == 0x3000
}

/// Whether a character is white space.
pub(crate) fn is_white(c: char) -> (r: bool)
    ensures
        r == white(c),
{
    let n: u32 = c as u32;
    0x9 <= n && n <= 0xd || n == 0x20 || n == 0x85 || n == 0xa0 || n == 0x1680 || 0x2000 <= n && n
        <= 0x200a || n == 0x2028 || n == 0x2029 || n == 0x202f || n == 0x205f || n == 0x3000
}

/// A text without white space at its start.
pub open spec fn trimmed_start(s: Seq<char>) -> Seq<char>
    decreases s.len(),
{
    if s.len() > 0 && white(s[0]) {
        trimmed_start(s.skip(1))
    } else {
        s
    }
}

/// A text without white space at its end.
pub open spec fn trimmed_end(s: Seq<char>) -> Seq<char>
    decreases s.len(),
{
    if s.len() > 0 && white(s.last()) {
        trimmed_end(s.drop_last())
    } else {
        s
    }
}

/// The position of the first occurrence of a character, or the length of the text.
pub open spec fn find(s: Seq<char>, c: char) -> nat
    decreases s.len(),
{
    if s.len() == 0 || s[0] == c {
        0
    } else {
        1 + find(s.skip(1), c)
    }
}

/// What a part of the command line says.
pub enum Directive {
    /// Something else.
    Other,
    /// A preload without a name.
    Malformed,
    /// A preload of a module.
    Preload(Seq<char>, Seq<char>),
}

/// What a part of the command line says: preloads are written as
/// `unstable_preload=name=module`.
pub open spec fn directive(part: Seq<char>) -> Directive {
    let prefix = "unstable_preload="@;
    if part.len() < prefix.len() || part.take(prefix.len() as int) != prefix {
        Directive::Other
    } else {
        let rest = part.skip(prefix.len() as int);
        let at = find(rest, '=') as int;
        if at >= rest.len() {
            Directive::Malformed
        } else {
            Directive::Preload(rest.take(at), rest.skip(at + 1))
        }
    }
}

/// The preloads of a command line whose parts are separated by semicolons, before the first one
/// without a name, and whether there is one without a name.
pub open spec fn preloads(args: Seq<char>) -> (Seq<(Seq<char>, Seq<char>)>, bool)
    decreases args.len(),
{
    let end = find(args, ';');
    let (rest, bad) = if end < args.len() {
        preloads(args.skip(end as int + 1))
    } else {
        (Seq::empty(), false)
    };
    match directive(args.take(end as int)) {
        Directive::Other => (rest, bad),
        Directive::Malformed => (Seq::empty(), true),
        Directive::Preload(name, body) => (seq![(name, body)] + rest, bad),
    }
}

/// The position of a character lies in the text, or is its length.
proof fn lemma_find(s: Seq<char>, c: char)
    ensures
        find(s, c) <= s.len(),
        forall|i: int| 0 <= i < find(s, c) ==> #[trigger] s[i] != c,
        find(s, c) < s.len() ==> s[find(s, c) as int] == c,
    decreases s.len(),
{
    if s.len() > 0 && s[0] != c {
        lemma_find(s.skip(1), c);
        assert forall|i: int| 0 <= i < find(s, c) implies #[trigger] s[i] != c by {
            if i > 0 {
                assert(s[i] == s.skip(1)[i - 1]);
            }
        }
    }
}

/// The first position of a character is where no earlier one is.
proof fn lemma_find_is(s: Seq<char>, c: char, at: int)
    requires
        0 <= at <= s.len(),
        forall|i: int| 0 <= i < at ==> #[trigger] s[i] != c,
        at < s.len() ==> s[at] == c,
    ensures
        find(s, c) == at,
{
    lemma_find(s, c);
    let found = find(s, c) as int;
    if found < at {
        assert(s[found] != c);
    }
    if at < found {
        assert(s[at] != c);
    }
}

/// Finds a character in a range of a text.
fn find_in(chars: &Vec<char>, from: usize, to: usize, c: char) -> (r: usize)
    requires
        from <= to <= chars@.len(),
    ensures
        from <= r <= to,
        r - from == find(chars@.subrange(from as int, to as int), c),
{
    let ghost s = chars@.subrange(from as int, to as int);
    let mut i: usize = from;
    while i < to && chars[i] != c
        invariant
            from <= i <= to <= chars@.len(),
            s == chars@.subrange(from as int, to as int),
            forall|k: int| 0 <= k < i - from ==> #[trigger] s[k] != c,
        decreases to - i,
    {
        assert(s[i - from] == chars@[i as int]);
        i = i + 1;
    }
    proof {
        if i < to {
            assert(s[i - from] == chars@[i as int]);
        }
        lemma_find_is(s, c, i - from);
    }
    i
}

/// Whether a range of a text begins with a prefix.
fn starts_with(chars: &Vec<char>, from: usize, to: usize, prefix: &Vec<char>) -> (r: bool)
    requires
        from <= to <= chars@.len(),
    ensures
        r == (to - from >= prefix@.len() && chars@.subrange(from as int, to as int).take(
            prefix@.len() as int,
        ) == prefix@),
{
    if to - from < prefix.len() {
        return false;
    }
    let ghost part = chars@.subrange(from as int, to as int);
    for i in 0..prefix.len()
        invariant
            from <= to <= chars@.len(),
            to - from >= prefix@.len(),
            part == chars@.subrange(from as int, to as int),
            forall|k: int| 0 <= k < i ==> #[trigger] part[k] == prefix@[k],
    {
        assert(part[i as int] == chars@[from + i]);
        if chars[from + i] != prefix[i] {
            assert(part.take(prefix@.len() as int)[i as int] != prefix@[i as int]);
            return false;
        }
    }
    assert(part.take(prefix@.len() as int) =~= prefix@);
    true
}

/// The characters of a text.
pub(crate) fn chars_of(text: &str) -> (r: Vec<char>)
    ensures
        r@ == text@,
{
    let n: usize = text.unicode_len();
    let mut chars: Vec<char> = Vec::new();
    for i in 0..n
        invariant
            n == text@.len(),
            chars@ == text@.take(i as int),
    {
        chars.push(text.get_char(i));
        assert(chars@ =~= text@.take(i + 1));
    }
    assert(text@.take(n as int) =~= text@);
    chars
}

/// The preloads as sequences of characters.
pub open spec fn listed(list: Seq<(String, String)>) -> Seq<(Seq<char>, Seq<char>)> {
    list.map_values(|p: (String, String)| (p.0@, p.1@))
}

/// The preloads that a command line asks for, each with its name and its module in base64. A
/// preload without a name ends the list, and is told.
pub fn parse_bootargs(args: &str) -> (r: (Vec<(String, String)>, Option<PreloadError>))
    ensures
        ({
            let (list, bad) = preloads(trimmed_end(trimmed_start(args@)));
            &&& listed(r.0@) == list
            &&& r.1 == (if bad {
                Some(PreloadError::MalformedDirective)
            } else {
                None
            })
        }),
{
    let chars = chars_of(args);
    let prefix = chars_of("unstable_preload=");
    proof {
        reveal_strlit("unstable_preload=");
    }
    let n: usize = chars.len();
    let mut lo: usize = 0;
    assert(args@.skip(0) =~= args@);
    while lo < n && is_white(chars[lo])
        invariant
            lo <= n == chars@.len(),
            chars@ == args@,
            trimmed_start(args@) == trimmed_start(args@.skip(lo as int)),
        decreases n - lo,
    {
        assert(args@.skip(lo as int).skip(1) =~= args@.skip(lo + 1));
        lo = lo + 1;
    }
    let ghost start = args@.skip(lo as int);
    assert(trimmed_start(args@) == start);
    let mut hi: usize = n;
    assert(args@.subrange(lo as int, hi as int) =~= start);
    while hi > lo && is_white(chars[hi - 1])
        invariant
            lo <= hi <= n == chars@.len(),
            chars@ == args@,
            trimmed_end(start) == trimmed_end(args@.subrange(lo as int, hi as int)),
        decreases hi,
    {
        assert(args@.subrange(lo as int, hi as int).drop_last() =~= args@.subrange(
            lo as int,
            hi - 1,
        ));
        hi = hi - 1;
    }
    let ghost text = args@.subrange(lo as int, hi as int);
    assert(trimmed_end(start) == text);
    let mut list: Vec<(String, String)> = Vec::new();
    let mut pos: usize = lo;
    let ghost mut rest = preloads(args@.subrange(pos as int, hi as int));
    assert(listed(list@) + rest.0 =~= rest.0);
    loop
        invariant_except_break
            rest == preloads(args@.subrange(pos as int, hi as int)),
            preloads(text) == (listed(list@) + rest.0, rest.1),
        invariant
            lo <= pos <= hi <= n == chars@.len(),
            chars@ == args@,
            prefix@ == "unstable_preload="@,
            prefix@.len() == 17,
            text == trimmed_end(trimmed_start(args@)),
        ensures
            listed(list@) == preloads(text).0,
            !preloads(text).1,
        decreases hi - pos,
    {
        let ghost remaining = args@.subrange(pos as int, hi as int);
        let end: usize = find_in(&chars, pos, hi, ';');
        let ghost part = remaining.take(end - pos);
        assert(part =~= args@.subrange(pos as int, end as int));
        let ghost before = listed(list@);
        if starts_with(&chars, pos, end, &prefix) {
            let current: usize = pos + prefix.len();
            let at: usize = find_in(&chars, current, end, '=');
            assert(part.skip(17) =~= args@.subrange(current as int, end as int));
            if at == end {
                assert(before + Seq::<(Seq<char>, Seq<char>)>::empty() =~= before);
                return (list, Some(PreloadError::MalformedDirective));
            }
            let name = String::from_str(args.substring_char(current, at));
            let body = String::from_str(args.substring_char(at + 1, end));
            assert(part.skip(17).take(at - current) =~= name@);
            assert(part.skip(17).skip(at - current + 1) =~= body@);
            list.push((name, body));
            assert(listed(list@) =~= before.push((name@, body@)));
        }
        proof {
            let next = if end < hi {
                preloads(args@.subrange(end + 1, hi as int))
            } else {
                (Seq::empty(), false)
            };
            if end < hi {
                assert(remaining.skip(end - pos + 1) =~= args@.subrange(end + 1, hi as int));
            }
            assert(before + rest.0 =~= listed(list@) + next.0);
            assert(rest.1 == next.1);
            rest = next;
        }
        if end >= hi {
            assert(listed(list@) + rest.0 =~= listed(list@));
            break ;
        }
        pos = end + 1;
    }
    (list, None)
}

} // verus!
