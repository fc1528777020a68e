use vstd::prelude::*;

verus! {

/// The two character sets the format restricts string fields to.
#[derive(Clone, Copy, Debug, PartialEq, Eq, Structural)]
pub enum Charset {
    A,
    D,
}

/// Membership in the "D" set: letters, digits and underscore.
pub open spec fn d_contains(b: u8) -> bool {
    ||| 0x41 <= b <= 0x5a
    ||| 0x61 <= b <= 0x7a
    ||| 0x30 <= b <= 0x39
    ||| b == 0x5f
}

/// Membership in the "A" set: the "D" set plus space and common punctuation.
pub open spec fn a_contains(b: u8) -> bool {
    ||| d_contains(b)
    ||| 0x20 <= b <= 0x22
    ||| 0x25 <= b <= 0x2f
    ||| 0x3a <= b <= 0x3f
}

pub open spec fn charset_contains(cs: Charset, b: u8) -> bool {
    match cs {
        Charset::A => a_contains(b),
        Charset::D => d_contains(b),
    }
}

/// Runtime test for membership, equal to the spec-level definition.
pub fn charset_check(cs: Charset, b: u8) -> (r: bool)
    ensures
        r == charset_contains(cs, b),
{
    match cs {
        Charset::A => {
            (0x41 <= b && b <= 0x5a) || (0x61 <= b && b <= 0x7a) || (0x30 <= b && b <= 0x39)
                || b == 0x5f || (0x20 <= b && b <= 0x22) || (0x25 <= b && b <= 0x2f) || (0x3a <= b
                && b <= 0x3f)
        },
        Charset::D => {
            (0x41 <= b && b <= 0x5a) || (0x61 <= b && b <= 0x7a) || (0x30 <= b && b <= 0x39)
                || b == 0x5f
        },
    }
}

/// The "A" set written out character by character, in the order the
/// format lists it: upper-case letters, lower-case letters, digits,
/// underscore, then space and the admitted punctuation.
pub open spec fn a_char_at(i: int) -> u8 {
    if i < 26 {
        (0x41 + i) as u8
    } else if i < 52 {
        (0x61 + (i - 26)) as u8
    } else if i < 62 {
        (0x30 + (i - 52)) as u8
    } else if i == 62 {
        0x5f
    } else if i < 66 {
        (0x20 + (i - 63)) as u8
    } else if i < 77 {
        (0x25 + (i - 66)) as u8
    } else {
        (0x3a + (i - 77)) as u8
    }
}

fn a_char_byte(i: usize) -> (r: u8)
    requires
        i < 83,
    ensures
        r == a_char_at(i as int),
{
    if i < 26 {
        0x41 + (i as u8)
    } else if i < 52 {
        0x61 + (i as u8 - 26)
    } else if i < 62 {
        0x30 + (i as u8 - 52)
    } else if i == 62 {
        0x5f
    } else if i < 66 {
        0x20 + (i as u8 - 63)
    } else if i < 77 {
        0x25 + (i as u8 - 66)
    } else {
        0x3a + (i as u8 - 77)
    }
}

/// The 83 characters of the "A" set, as the format lists them.  Every
/// byte of the result is in the set, and the space character is among
/// them.
pub fn str_a_char_set() -> (r: Vec<u8>)
    ensures
        r@ == Seq::new(83, |i: int| a_char_at(i)),
        r@.len() == 83,
        forall|j: int| 0 <= j < r@.len() ==> a_contains(#[trigger] r@[j]),
        r@.contains(0x20),
{
    let mut v: Vec<u8> = Vec::new();
    let mut i: usize = 0;
    while i < 83
        invariant
            i <= 83,
            v@.len() == i,
            forall|j: int| 0 <= j < i ==> v@[j] == a_char_at(j),
        decreases 83 - i,
    {
        v.push(a_char_byte(i));
        i = i + 1;
    }
    proof {
        assert(v@ =~= Seq::new(83, |i: int| a_char_at(i)));
        assert(forall|j: int| 0 <= j < 83 ==> a_contains(#[trigger] a_char_at(j)));
        assert(v@[63] == 0x20);
    }
    v
}

/// A byte that counts as trailing padding: space, or a raw zero.
pub open spec fn is_pad(b: u8) -> bool {
    b == 0x20 || b == 0
}

/// Length of `s` once the maximal run of trailing pad bytes is removed.
pub open spec fn trim_len(s: Seq<u8>) -> nat
    decreases s.len(),
{
    if s.len() == 0 {
        0
    } else if is_pad(s.last()) {
        trim_len(s.drop_last())
    } else {
        s.len()
    }
}

/// The first byte of `s` outside the character set, scanning left to right.
pub open spec fn first_invalid(s: Seq<u8>, cs: Charset) -> Option<u8>
    decreases s.len(),
{
    if s.len() == 0 {
        None
    } else if !charset_contains(cs, s.first()) {
        Some(s.first())
    } else {
        first_invalid(s.drop_first(), cs)
    }
}

/// A byte outside the declared character set stood in the logical portion
/// of a fixed string field.
#[derive(Clone, Copy, Debug, PartialEq, Eq, Structural)]
pub struct InvalidChar {
    pub code_point: u8,
    pub alphabet: Charset,
}

/// What parsing an N-byte window against a character set yields: the
/// trimmed logical content, or the first out-of-set byte in it.
pub open spec fn str_parse(s: Seq<u8>, cs: Charset) -> Result<Seq<u8>, InvalidChar> {
    let content = s.take(trim_len(s) as int);
    match first_invalid(content, cs) {
        Some(c) => Err(InvalidChar { code_point: c, alphabet: cs }),
        None => Ok(content),
    }
}

pub proof fn lemma_trim_len_le(s: Seq<u8>)
    ensures
        trim_len(s) <= s.len(),
    decreases s.len(),
{
    if s.len() > 0 && is_pad(s.last()) {
        lemma_trim_len_le(s.drop_last());
    }
}

/// Every byte past the trim point is a pad byte.
pub proof fn lemma_trimmed_is_pad(s: Seq<u8>, i: int)
    requires
        trim_len(s) <= i < s.len(),
    ensures
        is_pad(s[i]),
    decreases s.len(),
{
    lemma_trim_len_le(s);
    if i == s.len() - 1 {
    } else {
        lemma_trimmed_is_pad(s.drop_last(), i);
    }
}

/// Appending one pad byte does not change the trimmed length.
pub proof fn lemma_trim_push_pad(s: Seq<u8>, b: u8)
    requires
        is_pad(b),
    ensures
        trim_len(s.push(b)) == trim_len(s),
{
    assert(s.push(b).drop_last() =~= s);
}

/// Trailing pad bytes never count towards the trimmed length, whichever
/// mixture of space and zero bytes they are: content followed by any pad
/// suffix trims to the same logical length as the content alone.
pub proof fn lemma_pad_trimming(content: Seq<u8>, pads: Seq<u8>)
    requires
        forall|j: int| 0 <= j < pads.len() ==> is_pad(pads[j]),
    ensures
        trim_len(content + pads) == trim_len(content),
    decreases pads.len(),
{
    if pads.len() == 0 {
        assert(content + pads =~= content);
    } else {
        let shorter = pads.drop_last();
        assert(content + pads =~= (content + shorter).push(pads.last()));
        lemma_trim_push_pad(content + shorter, pads.last());
        lemma_pad_trimming(content, shorter);
    }
}

/// When every byte of `s` is in the set, the scan reports nothing.
pub proof fn lemma_first_invalid_none(s: Seq<u8>, cs: Charset)
    requires
        forall|j: int| 0 <= j < s.len() ==> charset_contains(cs, s[j]),
    ensures
        first_invalid(s, cs) is None,
    decreases s.len(),
{
    if s.len() > 0 {
        lemma_first_invalid_none(s.drop_first(), cs);
    }
}

/// When position `j` holds the first out-of-set byte, the scan reports it.
pub proof fn lemma_first_invalid_at(s: Seq<u8>, cs: Charset, j: int)
    requires
        0 <= j < s.len(),
        forall|k: int| 0 <= k < j ==> charset_contains(cs, s[k]),
        !charset_contains(cs, s[j]),
    ensures
        first_invalid(s, cs) == Some(s[j]),
    decreases j,
{
    if j > 0 {
        lemma_first_invalid_at(s.drop_first(), cs, j - 1);
    }
}

/// The reported byte of a failed scan is itself outside the set.
pub proof fn lemma_first_invalid_bad(s: Seq<u8>, cs: Charset)
    requires
        first_invalid(s, cs) is Some,
    ensures
        !charset_contains(cs, first_invalid(s, cs)->Some_0),
        exists|j: int| 0 <= j < s.len() && s[j] == first_invalid(s, cs)->Some_0,
    decreases s.len(),
{
    if s.len() > 0 && charset_contains(cs, s.first()) {
        lemma_first_invalid_bad(s.drop_first(), cs);
        let c = first_invalid(s, cs)->Some_0;
        let j = choose|j: int| 0 <= j < s.drop_first().len() && s.drop_first()[j] == c;
        assert(s[j + 1] == c);
    }
}

/// `c` left-justified in a window of `n` bytes, space-filled.
pub open spec fn pad_to(c: Seq<u8>, n: nat) -> Seq<u8> {
    Seq::new(n, |i: int| if i < c.len() { c[i] } else { 0x20 })
}

/// The optional logical content an empty-means-absent string field
/// parses to.
pub open spec fn parsed_opt_str(win: Seq<u8>, cs: Charset) -> Option<Seq<u8>> {
    let c = str_parse(win, cs)->Ok_0;
    if c.len() == 0 {
        None
    } else {
        Some(c)
    }
}

/// Parsing content followed by any run of pad bytes recovers the content
/// exactly, provided the content does not itself end in a pad byte and
/// every content byte is in the character set.
pub proof fn lemma_str_parse_content_pads(c: Seq<u8>, pads: Seq<u8>, cs: Charset)
    requires
        forall|j: int| 0 <= j < pads.len() ==> is_pad(#[trigger] pads[j]),
        c.len() > 0 ==> !is_pad(c.last()),
        forall|j: int| 0 <= j < c.len() ==> charset_contains(cs, #[trigger] c[j]),
    ensures
        str_parse(c + pads, cs) == Ok::<Seq<u8>, InvalidChar>(c),
{
    lemma_pad_trimming(c, pads);
    assert(trim_len(c) == c.len());
    assert((c + pads).take(trim_len(c + pads) as int) =~= c);
    lemma_first_invalid_none(c, cs);
}

/// A fixed-capacity string field: the raw window of exactly `LEN` bytes as
/// it stands on disk, plus the logical length left once trailing padding
/// is trimmed.  Its view is the logical content alone.
#[derive(Debug, PartialEq, Eq)]
pub struct ArrStr<const LEN: usize> {
    pub bytes: Vec<u8>,
    pub len: usize,
}

impl<const LEN: usize> View for ArrStr<LEN> {
    type V = Seq<u8>;

    open spec fn view(&self) -> Seq<u8> {
        self.bytes@.take(self.len as int)
    }
}

/// The logical content could not fit in the fixed capacity.
#[derive(Clone, Copy, Debug, PartialEq, Eq, Structural)]
pub struct TooBig;

impl<const LEN: usize> ArrStr<LEN> {
    /// The backing buffer spans exactly the field width and covers the
    /// logical length.
    pub open spec fn wf(&self) -> bool {
        &&& self.bytes@.len() == LEN
        &&& self.len <= LEN
    }

    /// The logical content does not itself end in a pad byte, as holds for
    /// every value produced by trimming.
    pub open spec fn trimmed(&self) -> bool {
        self.len > 0 ==> !is_pad(self.bytes@[self.len - 1])
    }

    /// The raw window, padding included.
    pub fn raw_bytes(&self) -> (r: &Vec<u8>)
        ensures
            r@ == self.bytes@,
    {
        &self.bytes
    }

    /// The logical length.
    pub fn len(&self) -> (r: usize)
        requires
            self.wf(),
        ensures
            r == self@.len(),
    {
        self.len
    }

    pub fn is_empty(&self) -> (r: bool)
        requires
            self.wf(),
        ensures
            r == (self@.len() == 0),
    {
        self.len() == 0
    }

    /// Parse an exactly `LEN`-byte window: trim trailing space/zero
    /// padding, then check every remaining byte against the character set.
    pub fn from_slice_with_ascii_subset(slice: &[u8], alphabet: Charset) -> (r: Result<
        Self,
        InvalidChar,
    >)
        requires
            slice@.len() == LEN,
        ensures
            match r {
                Ok(a) => {
                    &&& a.wf()
                    &&& a.trimmed()
                    &&& a.bytes@ == slice@
                    &&& str_parse(slice@, alphabet) == Ok::<Seq<u8>, InvalidChar>(a@)
                    &&& forall|j: int|
                        0 <= j < a@.len() ==> charset_contains(alphabet, a@[j])
                },
                Err(e) => str_parse(slice@, alphabet) == Err::<Seq<u8>, InvalidChar>(e),
            },
    {
        proof {
            assert(slice@.take(slice@.len() as int) =~= slice@);
        }
        let mut end: usize = slice.len();
        while end > 0
            invariant
                end <= slice@.len() == LEN,
                trim_len(slice@.take(end as int)) == trim_len(slice@),
            ensures
                end == 0 || !is_pad(slice@[end - 1]),
            decreases end,
        {
            let b = *vstd::slice::slice_index_get(slice, end - 1);
            if b != 0x20 && b != 0 {
                break ;
            }
            proof {
                assert(slice@.take(end as int).drop_last() =~= slice@.take(end - 1));
            }
            end = end - 1;
        }
        proof {
            if end > 0 {
                assert(slice@.take(end as int).last() == slice@[end - 1]);
            }
            assert(trim_len(slice@.take(end as int)) == end);
        }
        let ghost content = slice@.take(end as int);
        let mut j: usize = 0;
        while j < end
            invariant
                j <= end <= slice@.len() == LEN,
                content == slice@.take(end as int),
                trim_len(slice@) == end,
                forall|k: int| 0 <= k < j ==> charset_contains(alphabet, content[k]),
            decreases end - j,
        {
            let b = *vstd::slice::slice_index_get(slice, j);
            if !charset_check(alphabet, b) {
                proof {
                    lemma_first_invalid_at(content, alphabet, j as int);
                }
                return Err(InvalidChar { code_point: b, alphabet });
            }
            j = j + 1;
        }
        proof {
            lemma_first_invalid_none(content, alphabet);
        }
        let bytes = vstd::slice::slice_to_vec(slice);
        Ok(ArrStr { bytes, len: end })
    }

    /// Store the given content left-justified, zero-filling the remainder
    /// of the window.
    pub fn try_from_bytes(slice: &[u8]) -> (r: Result<Self, TooBig>)
        ensures
            match r {
                Ok(a) => {
                    &&& slice@.len() <= LEN
                    &&& a.wf()
                    &&& a.len == slice@.len()
                    &&& a@ == slice@
                },
                Err(TooBig) => slice@.len() > LEN,
            },
    {
        if slice.len() > LEN {
            return Err(TooBig);
        }
        let mut bytes = vstd::slice::slice_to_vec(slice);
        while bytes.len() < LEN
            invariant
                slice@.len() <= bytes@.len() <= LEN,
                bytes@.take(slice@.len() as int) == slice@,
            decreases LEN - bytes@.len(),
        {
            bytes.push(0);
            proof {
                assert(bytes@.take(slice@.len() as int) =~= bytes@.drop_last().take(
                    slice@.len() as int,
                ));
            }
        }
        let len = slice.len();
        proof {
            assert(bytes@.take(len as int) =~= slice@);
        }
        Ok(ArrStr { bytes, len })
    }

    /// The logical bytes left-justified with the remainder space-filled:
    /// the window a dump writes for this field.
    pub open spec fn padded(&self) -> Seq<u8> {
        pad_to(self@, LEN as nat)
    }

    /// Write the field as a dump lays it out: content first, spaces after.
    pub fn dump(&self) -> (out: Vec<u8>)
        requires
            self.wf(),
        ensures
            out@ == self.padded(),
            out@.len() == LEN,
    {
        let mut out: Vec<u8> = Vec::new();
        let mut i: usize = 0;
        while i < self.len
            invariant
                i <= self.len <= self.bytes@.len() == LEN,
                out@.len() == i,
                forall|k: int| 0 <= k < i ==> out@[k] == self@[k],
            decreases self.len - i,
        {
            out.push(self.bytes[i]);
            i = i + 1;
        }
        while i < LEN
            invariant
                self.len <= i <= LEN,
                self.len <= self.bytes@.len() == LEN,
                out@.len() == i,
                forall|k: int| 0 <= k < self.len ==> out@[k] == self@[k],
                forall|k: int| self.len <= k < i ==> out@[k] == 0x20,
            decreases LEN - i,
        {
            out.push(0x20);
            i = i + 1;
        }
        proof {
            assert(out@ =~= self.padded());
        }
        out
    }
}

impl<const LEN: usize> Default for ArrStr<LEN> {
    /// An empty field: a zeroed window and no logical content.
    fn default() -> (d: Self)
        ensures
            d.wf(),
            d.trimmed(),
            d@.len() == 0,
    {
        let mut bytes: Vec<u8> = Vec::new();
        while bytes.len() < LEN
            invariant
                bytes@.len() <= LEN,
            decreases LEN - bytes@.len(),
        {
            bytes.push(0);
        }
        ArrStr { bytes, len: 0 }
    }
}

/// A string field restricted to the "A" character set.
#[derive(Debug, PartialEq, Eq)]
pub struct StrA<const LEN: usize> {
    pub inner: ArrStr<LEN>,
}

impl<const LEN: usize> View for StrA<LEN> {
    type V = Seq<u8>;

    open spec fn view(&self) -> Seq<u8> {
        self.inner@
    }
}

impl<const LEN: usize> StrA<LEN> {
    pub open spec fn wf(&self) -> bool {
        &&& self.inner.wf()
        &&& self.inner.trimmed()
        &&& forall|j: int| 0 <= j < self@.len() ==> charset_contains(Charset::A, self@[j])
    }

    pub fn from_slice(slice: &[u8]) -> (r: Result<Self, InvalidChar>)
        requires
            slice@.len() == LEN,
        ensures
            match r {
                Ok(s) => {
                    &&& s.wf()
                    &&& s.inner.bytes@ == slice@
                    &&& str_parse(slice@, Charset::A) == Ok::<Seq<u8>, InvalidChar>(s@)
                },
                Err(e) => str_parse(slice@, Charset::A) == Err::<Seq<u8>, InvalidChar>(e),
            },
    {
        match ArrStr::from_slice_with_ascii_subset(slice, Charset::A) {
            Ok(inner) => Ok(StrA { inner }),
            Err(e) => Err(e),
        }
    }

    pub fn raw_bytes(&self) -> (r: &Vec<u8>)
        ensures
            r@ == self.inner.bytes@,
    {
        &self.inner.bytes
    }

    pub fn len(&self) -> (r: usize)
        requires
            self.wf(),
        ensures
            r == self@.len(),
    {
        self.inner.len()
    }

    pub fn is_empty(&self) -> (r: bool)
        requires
            self.wf(),
        ensures
            r == (self@.len() == 0),
    {
        self.inner.is_empty()
    }

    pub fn dump(&self) -> (out: Vec<u8>)
        requires
            self.wf(),
        ensures
            out@ == self.inner.padded(),
            out@.len() == LEN,
    {
        self.inner.dump()
    }
}

/// A string field restricted to the "D" character set.
#[derive(Debug, PartialEq, Eq)]
pub struct StrD<const LEN: usize> {
    pub inner: ArrStr<LEN>,
}

impl<const LEN: usize> View for StrD<LEN> {
    type V = Seq<u8>;

    open spec fn view(&self) -> Seq<u8> {
        self.inner@
    }
}

impl<const LEN: usize> StrD<LEN> {
    pub open spec fn wf(&self) -> bool {
        &&& self.inner.wf()
        &&& self.inner.trimmed()
        &&& forall|j: int| 0 <= j < self@.len() ==> charset_contains(Charset::D, self@[j])
    }

    pub fn from_slice(slice: &[u8]) -> (r: Result<Self, InvalidChar>)
        requires
            slice@.len() == LEN,
        ensures
            match r {
                Ok(s) => {
                    &&& s.wf()
                    &&& s.inner.bytes@ == slice@
                    &&& str_parse(slice@, Charset::D) == Ok::<Seq<u8>, InvalidChar>(s@)
                },
                Err(e) => str_parse(slice@, Charset::D) == Err::<Seq<u8>, InvalidChar>(e),
            },
    {
        match ArrStr::from_slice_with_ascii_subset(slice, Charset::D) {
            Ok(inner) => Ok(StrD { inner }),
            Err(e) => Err(e),
        }
    }

    pub fn raw_bytes(&self) -> (r: &Vec<u8>)
        ensures
            r@ == self.inner.bytes@,
    {
        &self.inner.bytes
    }

    pub fn len(&self) -> (r: usize)
        requires
            self.wf(),
        ensures
            r == self@.len(),
    {
        self.inner.len()
    }

    pub fn is_empty(&self) -> (r: bool)
        requires
            self.wf(),
        ensures
            r == (self@.len() == 0),
    {
        self.inner.is_empty()
    }

    pub fn dump(&self) -> (out: Vec<u8>)
        requires
            self.wf(),
        ensures
            out@ == self.inner.padded(),
            out@.len() == LEN,
    {
        self.inner.dump()
    }
}

impl<const LEN: usize> Default for StrD<LEN> {
    /// An empty field.
    fn default() -> (d: Self)
        ensures
            d.wf(),
            d@.len() == 0,
    {
        StrD { inner: ArrStr::default() }
    }
}

/// The logical view of an optional "A" string field.
pub open spec fn opt_a_view<const N: usize>(o: Option<StrA<N>>) -> Option<Seq<u8>> {
    match o {
        Some(s) => Some(s@),
        None => None,
    }
}

/// The logical view of an optional "D" string field.
pub open spec fn opt_d_view<const N: usize>(o: Option<StrD<N>>) -> Option<Seq<u8>> {
    match o {
        Some(s) => Some(s@),
        None => None,
    }
}

/// A present optional "A" field is well formed and non-empty, as a parse
/// only ever produces.
pub open spec fn opt_a_wf<const N: usize>(o: Option<StrA<N>>) -> bool {
    o matches Some(s) ==> s.wf() && s@.len() > 0
}

/// A present optional "D" field is well formed and non-empty.
pub open spec fn opt_d_wf<const N: usize>(o: Option<StrD<N>>) -> bool {
    o matches Some(s) ==> s.wf() && s@.len() > 0
}

/// Parsing a space-padded window recovers the content: the padded form
/// of any trimmed, in-set content parses back to that content.
pub proof fn lemma_str_parse_padded(c: Seq<u8>, cs: Charset, n: nat)
    requires
        c.len() <= n,
        c.len() > 0 ==> !is_pad(c.last()),
        forall|j: int| 0 <= j < c.len() ==> charset_contains(cs, #[trigger] c[j]),
    ensures
        str_parse(pad_to(c, n), cs) == Ok::<Seq<u8>, InvalidChar>(c),
{
    let pads = Seq::new((n - c.len()) as nat, |i: int| 0x20u8);
    assert(pad_to(c, n) =~= c + pads);
    lemma_str_parse_content_pads(c, pads, cs);
}

/// A byte outside its character set, standing anywhere in the logical
/// portion of the window, makes the parse fail, and the reported code
/// point is itself outside the set.  (Pad bytes are exempt only in the
/// trailing run, where trimming removes them before the scan.)
pub proof fn lemma_charset_rejection(s: Seq<u8>, cs: Charset, i: int)
    requires
        0 <= i < s.len(),
        !charset_contains(cs, s[i]),
        !is_pad(s[i]),
    ensures
        str_parse(s, cs) is Err,
        !charset_contains(cs, str_parse(s, cs)->Err_0.code_point),
        str_parse(s, cs)->Err_0.alphabet == cs,
        (forall|k: int| 0 <= k < i ==> charset_contains(cs, #[trigger] s[k])) ==> str_parse(
            s,
            cs,
        )->Err_0.code_point == s[i],
{
    let content = s.take(trim_len(s) as int);
    lemma_trim_len_le(s);
    if i >= trim_len(s) {
        lemma_trimmed_is_pad(s, i);
    }
    assert(content[i] == s[i]);
    assert(first_invalid(content, cs) is Some) by {
        if first_invalid(content, cs) is None {
            lemma_first_invalid_some(content, cs, i);
        }
    }
    lemma_first_invalid_bad(content, cs);
    if forall|k: int| 0 <= k < i ==> charset_contains(cs, #[trigger] s[k]) {
        assert(forall|k: int| 0 <= k < i ==> content[k] == s[k]);
        lemma_first_invalid_at(content, cs, i);
    }
}

/// A scan over a window with an out-of-set byte cannot report nothing.
proof fn lemma_first_invalid_some(s: Seq<u8>, cs: Charset, i: int)
    requires
        0 <= i < s.len(),
        !charset_contains(cs, s[i]),
    ensures
        first_invalid(s, cs) is Some,
    decreases i,
{
    if i > 0 && charset_contains(cs, s.first()) {
        lemma_first_invalid_some(s.drop_first(), cs, i - 1);
    }
}

} // verus!
