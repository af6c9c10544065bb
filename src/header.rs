//! Decoded message headers: each header's name and value bytes, in order,
//! and their wire form `<name>: <value>\r\n`.
use crate::ascii::{UPPER_A, UPPER_Z};
use crate::text::{ascii_chars, colon_sp, colon_sp_bytes, crlf, crlf_bytes};
use vstd::prelude::*;
use vstd::string::StringSliceAdditionalSpecFns;

verus! {

/// One header: the bytes of its name and of its value.
#[derive(Debug, Clone, PartialEq, Eq, Hash, Default)]
pub struct HeaderIndices {
    pub name: Vec<u8>,
    pub value: Vec<u8>,
}

/// The headers of one message, in the order in which they came. Each
/// header's bytes are copied out of the receive buffer when it is decoded,
/// so that the buffer may grow (and move) without invalidating them.
#[derive(Debug, Clone, PartialEq, Eq, Hash, Default)]
pub struct HeaderIndicesList {
    pub vec: Vec<HeaderIndices>,
}

impl View for HeaderIndicesList {
    type V = Seq<(Seq<u8>, Seq<u8>)>;

    open spec fn view(&self) -> Seq<(Seq<u8>, Seq<u8>)> {
        self.vec@.map_values(|h: HeaderIndices| (h.name@, h.value@))
    }
}

/// The header with the given name and value bytes.
pub fn header_of(name: &[u8], value: &[u8]) -> (r: HeaderIndices)
    ensures
        r.name@ == name@,
        r.value@ == value@,
{
    HeaderIndices { name: copy_all(name), value: copy_all(value) }
}

fn copy_all(b: &[u8]) -> (r: Vec<u8>)
    ensures
        r@ == b@,
{
    let mut v: Vec<u8> = Vec::new();
    append_bytes(&mut v, b);
    assert(v@ =~= b@);
    v
}

/// The wire form of the headers `l`: `<name>: <value>\r\n` for each.
pub open spec fn encode_headers(l: Seq<(Seq<u8>, Seq<u8>)>) -> Seq<u8>
    decreases l.len(),
{
    if l.len() == 0 {
        Seq::empty()
    } else {
        encode_headers(l.drop_last()) + header_line(l.last().0, l.last().1)
    }
}

/// One header line.
pub open spec fn header_line(name: Seq<u8>, value: Seq<u8>) -> Seq<u8> {
    name + colon_sp() + value + crlf()
}

/// The byte with ASCII upper-case letters made lower-case.
pub open spec fn ascii_lower(c: u8) -> u8 {
    if UPPER_A <= c <= UPPER_Z {
        (c + 0x20u8) as u8
    } else {
        c
    }
}

/// Equal but for the case of ASCII letters.
pub open spec fn eq_ignore_case(a: Seq<u8>, b: Seq<u8>) -> bool {
    a.len() == b.len() && forall|i: int| 0 <= i < a.len() ==> #[trigger] ascii_lower(a[i])
        == ascii_lower(b[i])
}

/// Whether `a` and `b` are equal but for the case of ASCII letters.
pub fn bytes_eq_ignore_case(a: &[u8], b: &[u8]) -> (r: bool)
    ensures
        r == eq_ignore_case(a@, b@),
{
    if a.len() != b.len() {
        return false;
    }
    let mut k: usize = 0;
    while k < a.len()
        invariant
            a@.len() == b@.len(),
            k <= a@.len(),
            forall|i: int| 0 <= i < k ==> #[trigger] ascii_lower(a@[i]) == ascii_lower(b@[i]),
        decreases a@.len() - k,
    {
        let x = if UPPER_A <= a[k] && a[k] <= UPPER_Z {
            a[k] + 0x20u8
        } else {
            a[k]
        };
        let y = if UPPER_A <= b[k] && b[k] <= UPPER_Z {
            b[k] + 0x20u8
        } else {
            b[k]
        };
        if x != y {
            assert(ascii_lower(a@[k as int]) != ascii_lower(b@[k as int]));
            return false;
        }
        k = k + 1;
    }
    true
}

/// Appends `src` to `dst`.
pub fn append_bytes(dst: &mut Vec<u8>, src: &[u8])
    ensures
        final(dst)@ == old(dst)@ + src@,
{
    let mut k: usize = 0;
    while k < src.len()
        invariant
            k <= src@.len(),
            dst@ == old(dst)@ + src@.subrange(0, k as int),
        decreases src@.len() - k,
    {
        dst.push(src[k]);
        k = k + 1;
        assert(dst@ =~= old(dst)@ + src@.subrange(0, k as int));
    }
    assert(src@.subrange(0, src@.len() as int) =~= src@);
}

/// Appends the line `<name>: <value>\r\n` to `dst`.
pub fn write_header_line(dst: &mut Vec<u8>, name: &[u8], value: &[u8])
    ensures
        final(dst)@ == old(dst)@ + header_line(name@, value@),
{
    append_bytes(dst, name);
    append_bytes(dst, colon_sp_bytes().as_slice());
    append_bytes(dst, value);
    append_bytes(dst, crlf_bytes().as_slice());
    assert(dst@ =~= old(dst)@ + header_line(name@, value@));
}

impl HeaderIndicesList {
    pub fn new() -> (r: HeaderIndicesList)
        ensures
            r@ == Seq::<(Seq<u8>, Seq<u8>)>::empty(),
    {
        let r = HeaderIndicesList { vec: Vec::new() };
        assert(r@ =~= Seq::<(Seq<u8>, Seq<u8>)>::empty());
        r
    }

    pub fn clear(&mut self)
        ensures
            final(self)@ == Seq::<(Seq<u8>, Seq<u8>)>::empty(),
    {
        self.vec.clear();
        assert(self@ =~= Seq::<(Seq<u8>, Seq<u8>)>::empty());
    }

    pub fn len(&self) -> (r: usize)
        ensures
            r == self@.len(),
    {
        self.vec.len()
    }

    /// Appends the header `name: value`.
    pub fn push(&mut self, name: Vec<u8>, value: Vec<u8>)
        ensures
            final(self)@ == old(self)@.push((name@, value@)),
    {
        self.vec.push(HeaderIndices { name, value });
        assert(self@ =~= old(self)@.push((name@, value@)));
    }

    /// The header at `i`.
    pub fn get(&self, i: usize) -> (r: Header<'_>)
        requires
            i < self@.len(),
        ensures
            r.name.0@ == self@[i as int].0,
            r.value.value@ == self@[i as int].1,
    {
        let h = &self.vec[i];
        Header { name: HeaderName(h.name.as_slice()), value: HeaderValue { value: h.value.as_slice() } }
    }

    /// The value of the first header whose name equals `name` but for case.
    pub fn find(&self, name: &[u8]) -> (r: Option<usize>)
        ensures
            r matches Some(i) ==> i < self@.len() && eq_ignore_case(self@[i as int].0, name@)
                && forall|j: int| 0 <= j < i ==> !eq_ignore_case(#[trigger] self@[j].0, name@),
            r is None ==> forall|j: int| 0 <= j < self@.len() ==> !eq_ignore_case(
                #[trigger] self@[j].0,
                name@,
            ),
    {
        let mut k: usize = 0;
        while k < self.vec.len()
            invariant
                k <= self@.len(),
                forall|j: int| 0 <= j < k ==> !eq_ignore_case(#[trigger] self@[j].0, name@),
            decreases self@.len() - k,
        {
            if bytes_eq_ignore_case(self.vec[k].name.as_slice(), name) {
                return Some(k);
            }
            k = k + 1;
        }
        None
    }

    /// Writes `<name>: <value>\r\n` for each header, in order, to `dst`.
    pub fn encode(&self, dst: &mut Vec<u8>)
        ensures
            final(dst)@ == old(dst)@ + encode_headers(self@),
    {
        let mut k: usize = 0;
        while k < self.vec.len()
            invariant
                k <= self@.len(),
                dst@ == old(dst)@ + encode_headers(self@.subrange(0, k as int)),
            decreases self@.len() - k,
        {
            let h = &self.vec[k];
            write_header_line(dst, h.name.as_slice(), h.value.as_slice());
            proof {
                let s = self@.subrange(0, k + 1);
                assert(s.drop_last() =~= self@.subrange(0, k as int));
                assert(s.last() == self@[k as int]);
            }
            k = k + 1;
            assert(dst@ =~= old(dst)@ + encode_headers(self@.subrange(0, k as int)));
        }
        assert(self@.subrange(0, k as int) =~= self@);
    }
}

/// A header's name, compared without regard to ASCII case.
#[derive(Debug, Clone, Copy, Eq)]
pub struct HeaderName<'b>(pub &'b [u8]);

/// A header's value.
#[derive(Debug, Copy, Clone, PartialEq, Eq, Hash)]
pub struct HeaderValue<'b> {
    pub value: &'b [u8],
}

/// One header of a decoded message.
#[derive(Debug, Clone, PartialEq, Eq)]
pub struct Header<'b> {
    pub name: HeaderName<'b>,
    pub value: HeaderValue<'b>,
}

/// Relies on `std::str::from_utf8`: ASCII bytes are valid UTF-8 and stand
/// for the characters of the same codes.
#[verifier::external_body]
fn utf8_str<'b>(b: &'b [u8]) -> (r: &'b str)
    ensures
        (forall|k: int| 0 <= k < b@.len() ==> #[trigger] b@[k] < 0x80u8) ==> r@ == ascii_chars(b@),
{
    std::str::from_utf8(b).unwrap_or_default()
}

impl<'b> HeaderName<'b> {
    pub fn new(name: &'b [u8]) -> (r: HeaderName<'b>)
        ensures
            r.0@ == name@,
    {
        HeaderName(name)
    }

    /// The name as text; an ASCII name (all names that the decoders give)
    /// reads as the same characters.
    pub fn as_str(&self) -> (r: &'b str)
        ensures
            (forall|k: int| 0 <= k < self.0@.len() ==> #[trigger] self.0@[k] < 0x80u8) ==> r@
                == ascii_chars(self.0@),
    {
        utf8_str(self.0)
    }

    pub fn as_bytes(&self) -> (r: &'b [u8])
        ensures
            r@ == self.0@,
    {
        self.0
    }
}

impl<'a, 'b> PartialEq<HeaderName<'a>> for HeaderName<'b> {
    fn eq(&self, other: &HeaderName<'a>) -> (r: bool)
        ensures
            r == eq_ignore_case(self.0@, other.0@),
    {
        bytes_eq_ignore_case(self.0, other.0)
    }
}

impl<'a, 'b> vstd::std_specs::cmp::PartialEqSpecImpl<HeaderName<'a>> for HeaderName<'b> {
    open spec fn obeys_eq_spec() -> bool {
        true
    }

    open spec fn eq_spec(&self, other: &HeaderName<'a>) -> bool {
        eq_ignore_case(self.0@, other.0@)
    }
}

impl<'a, 'b> PartialEq<&'a [u8]> for HeaderName<'b> {
    fn eq(&self, other: &&'a [u8]) -> (r: bool)
        ensures
            r == eq_ignore_case(self.0@, (*other)@),
    {
        bytes_eq_ignore_case(self.0, *other)
    }
}

impl<'a, 'b> vstd::std_specs::cmp::PartialEqSpecImpl<&'a [u8]> for HeaderName<'b> {
    open spec fn obeys_eq_spec() -> bool {
        true
    }

    open spec fn eq_spec(&self, other: &&'a [u8]) -> bool {
        eq_ignore_case(self.0@, (*other)@)
    }
}

impl<'a, 'b> PartialEq<&'a str> for HeaderName<'b> {
    fn eq(&self, other: &&'a str) -> (r: bool)
        ensures
            r == eq_ignore_case(self.0@, (*other).spec_bytes()),
    {
        bytes_eq_ignore_case(self.0, (*other).as_bytes())
    }
}

impl<'a, 'b> vstd::std_specs::cmp::PartialEqSpecImpl<&'a str> for HeaderName<'b> {
    open spec fn obeys_eq_spec() -> bool {
        true
    }

    open spec fn eq_spec(&self, other: &&'a str) -> bool {
        eq_ignore_case(self.0@, (*other).spec_bytes())
    }
}

impl<'b> HeaderValue<'b> {
    pub fn new(value: &'b [u8]) -> (r: HeaderValue<'b>)
        ensures
            r.value@ == value@,
    {
        HeaderValue { value }
    }

    pub fn as_bytes(&self) -> (r: &'b [u8])
        ensures
            r@ == self.value@,
    {
        self.value
    }
}

/// Walks the headers of a list in order.
#[derive(Debug)]
pub struct HeaderIterator<'b> {
    pub list: &'b HeaderIndicesList,
    pub pos: usize,
}

impl<'b> HeaderIterator<'b> {
    /// A walk from the first header.
    pub fn new(list: &'b HeaderIndicesList) -> (r: HeaderIterator<'b>)
        ensures
            r.list == list,
            r.pos == 0,
    {
        HeaderIterator { list, pos: 0 }
    }

    /// The next header, if any.
    pub fn next(&mut self) -> (r: Option<Header<'b>>)
        ensures
            final(self).list == old(self).list,
            old(self).pos < old(self).list@.len() ==> final(self).pos == old(self).pos + 1 && (r matches Some(h) && h.name.0@ == old(
                self,
            ).list@[old(self).pos as int].0 && h.value.value@ == old(self).list@[old(
                self,
            ).pos as int].1),
            old(self).pos >= old(self).list@.len() ==> r is None && final(self).pos == old(self).pos,
    {
        if self.pos < self.list.len() {
            let h = self.list.get(self.pos);
            self.pos = self.pos + 1;
            Some(h)
        } else {
            None
        }
    }
}

} // verus!
