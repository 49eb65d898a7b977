use core::cmp::Ordering;
use core::marker::PhantomData;
use vstd::prelude::*;

use crate::err::InvalidIdError;

verus! {

/// The longest a part of an [`Id`] may be, in bytes.
pub const PART_CAP: usize = 12;

/// The character that joins the two parts in the string form of an [`Id`].
pub open spec fn is_sep(c: char) -> bool {
    c == '/'
}

/// A character allowed in a part: `[a-zA-Z0-9._-]`.
pub open spec fn is_part_char(c: char) -> bool {
    ||| 'a' <= c <= 'z'
    ||| 'A' <= c <= 'Z'
    ||| '0' <= c <= '9'
    ||| c == '.'
    ||| c == '_'
    ||| c == '-'
}

/// A valid part: one to twelve allowed characters.
pub open spec fn valid_part(p: Seq<char>) -> bool {
    &&& 1 <= p.len() <= PART_CAP
    &&& forall|i: int| 0 <= i < p.len() ==> is_part_char(#[trigger] p[i])
}

/// A valid identifier, as its (module, name) pair.
pub open spec fn valid_id(v: (Seq<char>, Seq<char>)) -> bool {
    valid_part(v.0) && valid_part(v.1)
}

/// The string form of an identifier: `module/name`.
pub open spec fn id_string(v: (Seq<char>, Seq<char>)) -> Seq<char> {
    v.0 + seq!['/'] + v.1
}

/// How many separators `s` holds.
pub open spec fn sep_count(s: Seq<char>) -> nat
    decreases s.len(),
{
    if s.len() == 0 {
        0
    } else {
        sep_count(s.drop_last()) + if is_sep(s.last()) {
            1nat
        } else {
            0nat
        }
    }
}

/// The index of the last separator in `s`, or -1 where it holds none.
pub open spec fn last_sep(s: Seq<char>) -> int
    decreases s.len(),
{
    if s.len() == 0 {
        -1
    } else if is_sep(s.last()) {
        s.len() - 1
    } else {
        last_sep(s.drop_last())
    }
}

/// What parsing `s` gives: the (module, name) pair, or why `s` is no identifier.
/// The separator count is checked first, then the byte length of each part, then
/// the characters of each part.
pub open spec fn id_parse(s: Seq<char>) -> Result<(Seq<char>, Seq<char>), InvalidIdError> {
    if sep_count(s) != 1 {
        Err(InvalidIdError::InvalidParts)
    } else {
        let p = last_sep(s);
        let m = s.subrange(0, p);
        let n = s.subrange(p + 1, s.len() as int);
        if vstd::utf8::encode_utf8(m).len() > PART_CAP || vstd::utf8::encode_utf8(n).len()
            > PART_CAP {
            Err(InvalidIdError::Length)
        } else if !valid_id((m, n)) {
            Err(InvalidIdError::InvalidChars)
        } else {
            Ok((m, n))
        }
    }
}

/// Lexicographic order of two character sequences, by code point.
pub open spec fn seq_cmp(a: Seq<char>, b: Seq<char>) -> Ordering
    decreases a.len(),
{
    if a.len() == 0 {
        if b.len() == 0 {
            Ordering::Equal
        } else {
            Ordering::Less
        }
    } else if b.len() == 0 {
        Ordering::Greater
    } else if a[0] < b[0] {
        Ordering::Less
    } else if a[0] > b[0] {
        Ordering::Greater
    } else {
        seq_cmp(a.drop_first(), b.drop_first())
    }
}

/// A string identifier for a resource of type `T` in a registry.
///
/// An `Id` has a `module` part, for namespacing, and a `name` part. Each part is one to
/// twelve characters of `[a-zA-Z0-9._-]`. Its string form is `module/name`.
/// Identifiers compare as their string forms do; the type parameter never takes part.
#[derive(Hash)]
pub struct Id<T> {
    module: String,
    name: String,
    _t: PhantomData<T>,
}

impl<T> View for Id<T> {
    type V = (Seq<char>, Seq<char>);

    closed spec fn view(&self) -> (Seq<char>, Seq<char>) {
        (self.module@, self.name@)
    }
}

impl<T> Id<T> {
    #[verifier::type_invariant]
    closed spec fn inv(&self) -> bool {
        valid_id((self.module@, self.name@))
    }

    /// Creates an `Id` from its two parts, each of which must be valid.
    pub fn new(module: String, name: String) -> (r: Self)
        requires
            valid_id((module@, name@)),
        ensures
            r@ == (module@, name@),
    {
        Id { module, name, _t: PhantomData }
    }

    /// The module part.
    pub fn module(&self) -> (r: &str)
        ensures
            r@ == self@.0,
    {
        self.module.as_str()
    }

    /// The name part.
    pub fn name(&self) -> (r: &str)
        ensures
            r@ == self@.1,
    {
        self.name.as_str()
    }
}


/// A UTF-8 encoding takes one to four bytes per character.
proof fn lemma_utf8_len_bounds(s: Seq<char>)
    ensures
        s.len() <= vstd::utf8::encode_utf8(s).len() <= 4 * s.len(),
    decreases s.len(),
{
    if s.len() > 0 {
        lemma_utf8_len_bounds(s.drop_first());
    }
}

/// Whether `c` is allowed in a part.
fn is_part_char_exec(c: char) -> (r: bool)
    ensures
        r == is_part_char(c),
{
    ('a' <= c && c <= 'z') || ('A' <= c && c <= 'Z') || ('0' <= c && c <= '9') || c == '.' || c
        == '_' || c == '-'
}

/// Whether `p` is a valid part.
fn is_valid_part(p: &str) -> (r: bool)
    ensures
        r == valid_part(p@),
{
    let n = p.unicode_len();
    if n < 1 || n > PART_CAP {
        return false;
    }
    let mut i: usize = 0;
    while i < n
        invariant
            n == p@.len(),
            i <= n,
            forall|j: int| 0 <= j < i ==> is_part_char(#[trigger] p@[j]),
        decreases n - i,
    {
        let c = p.get_char(i);
        if !is_part_char_exec(c) {
            return false;
        }
        i += 1;
    }
    true
}

/// Compares two strings character by character.
fn str_cmp(a: &str, b: &str) -> (r: Ordering)
    ensures
        r == seq_cmp(a@, b@),
{
    let na = a.unicode_len();
    let nb = b.unicode_len();
    let mut i: usize = 0;
    assert(a@.skip(0) =~= a@);
    assert(b@.skip(0) =~= b@);
    while i < na && i < nb
        invariant
            na == a@.len(),
            nb == b@.len(),
            i <= na,
            i <= nb,
            seq_cmp(a@, b@) == seq_cmp(a@.skip(i as int), b@.skip(i as int)),
        decreases na - i,
    {
        let ca = a.get_char(i);
        let cb = b.get_char(i);
        if ca < cb {
            return Ordering::Less;
        } else if ca > cb {
            return Ordering::Greater;
        }
        assert(a@.skip(i as int).drop_first() =~= a@.skip(i + 1));
        assert(b@.skip(i as int).drop_first() =~= b@.skip(i + 1));
        i += 1;
    }
    if i < na {
        Ordering::Greater
    } else if i < nb {
        Ordering::Less
    } else {
        Ordering::Equal
    }
}

impl<T> Id<T> {
    /// Parses the string form `module/name`.
    ///
    /// Fails with `InvalidParts` unless `s` holds exactly one `/`, then with `Length`
    /// where a part is longer than twelve bytes, then with `InvalidChars` where a part
    /// is empty or holds a character outside `[a-zA-Z0-9._-]`.
    pub fn parse(s: &str) -> (r: Result<Self, InvalidIdError>)
        ensures
            match r {
                Ok(id) => id_parse(s@) == Ok::<(Seq<char>, Seq<char>), InvalidIdError>(id@),
                Err(e) => id_parse(s@) == Err::<(Seq<char>, Seq<char>), InvalidIdError>(e),
            },
    {
        let n = s.unicode_len();
        let mut i: usize = 0;
        let mut cnt: usize = 0;
        let mut pos: usize = 0;
        while i < n
            invariant
                n == s@.len(),
                i <= n,
                cnt <= i,
                cnt == sep_count(s@.subrange(0, i as int)),
                cnt >= 1 ==> pos < i && pos as int == last_sep(s@.subrange(0, i as int)),
            decreases n - i,
        {
            let c = s.get_char(i);
            assert(s@.subrange(0, i + 1).drop_last() =~= s@.subrange(0, i as int));
            if c == '/' {
                cnt += 1;
                pos = i;
            }
            i += 1;
        }
        assert(s@.subrange(0, n as int) =~= s@);
        if cnt != 1 {
            return Err(InvalidIdError::InvalidParts);
        }
        let module = s.substring_char(0, pos);
        let name = s.substring_char(pos + 1, n);
        assert(last_sep(s@) == pos as int);
        assert(module@ == s@.subrange(0, last_sep(s@)));
        assert(name@ == s@.subrange(last_sep(s@) + 1, s@.len() as int));
        proof {
            lemma_utf8_len_bounds(module@);
            lemma_utf8_len_bounds(name@);
        }
        if module.unicode_len() > PART_CAP || name.unicode_len() > PART_CAP {
            return Err(InvalidIdError::Length);
        }
        if module.len() > PART_CAP || name.len() > PART_CAP {
            return Err(InvalidIdError::Length);
        }
        if !is_valid_part(module) || !is_valid_part(name) {
            return Err(InvalidIdError::InvalidChars);
        }
        Ok(Id::new(String::from_str(module), String::from_str(name)))
    }

    /// The string form `module/name`.
    pub fn to_string(&self) -> (r: String)
        ensures
            r@ == id_string(self@),
            valid_id(self@),
    {
        proof {
            use_type_invariant(self);
        }
        let mut s = self.module.clone();
        s.append("/");
        s.append(self.name.as_str());
        proof {
            reveal_strlit("/");
        }
        s
    }

    /// Orders identifiers as their string forms `module/name` are ordered.
    pub fn cmp(&self, other: &Self) -> (r: Ordering)
        ensures
            r == seq_cmp(id_string(self@), id_string(other@)),
    {
        let a = self.to_string();
        let b = other.to_string();
        str_cmp(a.as_str(), b.as_str())
    }
}

impl<T> Clone for Id<T> {
    fn clone(&self) -> (r: Self)
        ensures
            r@ == self@,
    {
        proof {
            use_type_invariant(self);
        }
        Id { module: self.module.clone(), name: self.name.clone(), _t: PhantomData }
    }
}

impl<T> PartialEq for Id<T> {
    fn eq(&self, other: &Self) -> (r: bool) {
        self.module == other.module && self.name == other.name
    }
}

impl<T> vstd::std_specs::cmp::PartialEqSpecImpl for Id<T> {
    open spec fn obeys_eq_spec() -> bool {
        true
    }

    open spec fn eq_spec(&self, other: &Self) -> bool {
        self@ == other@
    }
}

impl<T> Eq for Id<T> {
}

impl<T> PartialOrd for Id<T> {
    fn partial_cmp(&self, other: &Self) -> (r: Option<Ordering>) {
        Some(self.cmp(other))
    }
}

impl<T> vstd::std_specs::cmp::PartialOrdSpecImpl for Id<T> {
    open spec fn obeys_partial_cmp_spec() -> bool {
        true
    }

    open spec fn partial_cmp_spec(&self, other: &Self) -> Option<Ordering> {
        Some(seq_cmp(id_string(self@), id_string(other@)))
    }
}

impl<T> core::str::FromStr for Id<T> {
    type Err = InvalidIdError;

    fn from_str(s: &str) -> (r: Result<Self, InvalidIdError>)
        ensures
            match r {
                Ok(id) => id_parse(s@) == Ok::<(Seq<char>, Seq<char>), InvalidIdError>(id@),
                Err(e) => id_parse(s@) == Err::<(Seq<char>, Seq<char>), InvalidIdError>(e),
            },
    {
        Id::parse(s)
    }
}

/// Creates an [`Id`] from its string form, which must be valid.
pub fn id<T>(s: &str) -> (r: Id<T>)
    requires
        id_parse(s@) is Ok,
    ensures
        id_parse(s@) == Ok::<(Seq<char>, Seq<char>), InvalidIdError>(r@),
{
    Id::parse(s).unwrap()
}

} // verus!

verus! {

/// A part holds no separator.
pub open spec fn no_sep(p: Seq<char>) -> bool {
    forall|i: int| 0 <= i < p.len() ==> !is_sep(#[trigger] p[i])
}

proof fn lemma_no_sep(p: Seq<char>)
    requires
        no_sep(p),
    ensures
        sep_count(p) == 0,
        last_sep(p) == -1,
    decreases p.len(),
{
    if p.len() > 0 {
        lemma_no_sep(p.drop_last());
    }
}

proof fn lemma_sep_count_concat(a: Seq<char>, b: Seq<char>)
    ensures
        sep_count(a + b) == sep_count(a) + sep_count(b),
    decreases b.len(),
{
    if b.len() == 0 {
        assert(a + b =~= a);
    } else {
        assert((a + b).drop_last() =~= a + b.drop_last());
        lemma_sep_count_concat(a, b.drop_last());
    }
}

proof fn lemma_last_sep_concat(a: Seq<char>, b: Seq<char>)
    requires
        no_sep(b),
    ensures
        last_sep(a + b) == last_sep(a),
    decreases b.len(),
{
    if b.len() == 0 {
        assert(a + b =~= a);
    } else {
        assert((a + b).drop_last() =~= a + b.drop_last());
        lemma_last_sep_concat(a, b.drop_last());
    }
}

proof fn lemma_valid_part(p: Seq<char>)
    requires
        valid_part(p),
    ensures
        no_sep(p),
        vstd::utf8::encode_utf8(p).len() == p.len(),
{
    assert(vstd::utf8::is_ascii_chars(p)) by {
        assert forall|i: int| 0 <= i < p.len() implies '\0' <= #[trigger] p[i] <= '\u{7f}' by {
            assert(is_part_char(p[i]));
        }
    }
    vstd::utf8::is_ascii_chars_encode_utf8(p);
}

/// Parsing the string form of a valid identifier gives that identifier back.
pub proof fn lemma_parse_to_string(v: (Seq<char>, Seq<char>))
    requires
        valid_id(v),
    ensures
        id_parse(id_string(v)) == Ok::<(Seq<char>, Seq<char>), InvalidIdError>(v),
{
    let (m, n) = v;
    let s = id_string(v);
    lemma_valid_part(m);
    lemma_valid_part(n);
    lemma_no_sep(m);
    lemma_no_sep(n);
    lemma_sep_count_concat(m + seq!['/'], n);
    lemma_sep_count_concat(m, seq!['/']);
    assert(seq!['/'].drop_last() =~= Seq::<char>::empty());
    assert(sep_count(Seq::<char>::empty()) == 0);
    assert(sep_count(seq!['/']) == 1);
    lemma_last_sep_concat(m + seq!['/'], n);
    assert((m + seq!['/']).drop_last() =~= m);
    assert(last_sep(m + seq!['/']) == m.len());
    assert(s.subrange(0, m.len() as int) =~= m);
    assert(s.subrange(m.len() as int + 1, s.len() as int) =~= n);
}

/// Parsing fails with `InvalidParts` on a string without exactly one separator, and
/// otherwise with `Length` where a part is longer than twelve bytes.
pub proof fn lemma_parse_rejects(s: Seq<char>)
    ensures
        sep_count(s) != 1 ==> id_parse(s) == Err::<(Seq<char>, Seq<char>), InvalidIdError>(
            InvalidIdError::InvalidParts,
        ),
        sep_count(s) == 1 && (vstd::utf8::encode_utf8(s.subrange(0, last_sep(s))).len() > PART_CAP
            || vstd::utf8::encode_utf8(s.subrange(last_sep(s) + 1, s.len() as int)).len()
            > PART_CAP) ==> id_parse(s) == Err::<(Seq<char>, Seq<char>), InvalidIdError>(
            InvalidIdError::Length,
        ),
{
}

} // verus!
