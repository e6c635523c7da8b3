//! The `application/x-www-form-urlencoded` body format: each key and value is
//! serialized byte by byte, a pair is `key=value`, and pairs are joined by `&`.

use vstd::prelude::*;
use vstd::utf8::encode_utf8;

verus! {

/// A form key or value as text, and the pairs of a body in emission order.
pub type FormPairs = Seq<(Seq<char>, Seq<char>)>;

/// Bytes that the form serializer leaves as they are.
pub open spec fn byte_unchanged(b: u8) -> bool {
    b == 0x2a || b == 0x2d || b == 0x2e || b == 0x5f || (0x30 <= b <= 0x39) || (0x41 <= b
        <= 0x5a) || (0x61 <= b <= 0x7a)
}

/// An upper-case hexadecimal digit for `n < 16`.
pub open spec fn hex_upper(n: u8) -> char {
    if n < 10 {
        (0x30 + n) as char
    } else {
        (0x41 + (n - 10)) as char
    }
}

/// What one byte becomes: itself, `+` for a space, else `%` and two hex digits.
pub open spec fn serialized_byte(b: u8) -> Seq<char> {
    if byte_unchanged(b) {
        seq![b as char]
    } else if b == 0x20 {
        seq!['+']
    } else {
        seq!['%', hex_upper(b / 16), hex_upper(b % 16)]
    }
}

/// The serialization of a byte string, byte after byte.
pub open spec fn serialized_bytes(bs: Seq<u8>) -> Seq<char>
    decreases bs.len(),
{
    if bs.len() == 0 {
        Seq::empty()
    } else {
        serialized_bytes(bs.drop_last()) + serialized_byte(bs.last())
    }
}

/// The serialization of a text: that of its UTF-8 bytes.
pub open spec fn form_component(s: Seq<char>) -> Seq<char> {
    serialized_bytes(encode_utf8(s))
}

/// One pair as it stands in a body.
pub open spec fn pair_text(p: (Seq<char>, Seq<char>)) -> Seq<char> {
    form_component(p.0) + seq!['='] + form_component(p.1)
}

/// A whole body: the pairs' texts joined by `&`, with no separator at either end.
pub open spec fn form_text(pairs: FormPairs) -> Seq<char>
    decreases pairs.len(),
{
    if pairs.len() == 0 {
        Seq::empty()
    } else if pairs.len() == 1 {
        pair_text(pairs[0])
    } else {
        form_text(pairs.drop_last()) + seq!['&'] + pair_text(pairs.last())
    }
}

/// The pieces of a text between its `&` separators, as `str::split('&')`
/// yields them: a text with no `&` is one piece.
pub open spec fn split_amp(t: Seq<char>) -> Seq<Seq<char>>
    decreases t.len(),
{
    if t.len() == 0 {
        seq![Seq::empty()]
    } else {
        let r = split_amp(t.drop_last());
        if t.last() == '&' {
            r.push(Seq::empty())
        } else {
            r.update(r.len() - 1, r.last().push(t.last()))
        }
    }
}

/// The text of each pair of a body, in order.
pub open spec fn pair_texts(pairs: FormPairs) -> Seq<Seq<char>> {
    pairs.map_values(|p: (Seq<char>, Seq<char>)| pair_text(p))
}

/// Relies on `form_urlencoded::byte_serialize` (re-exported by `url`): the
/// form serialization of the text's UTF-8 bytes, concatenated.
#[verifier::external_body]
fn serialize_component(s: &str) -> (r: String)
    ensures
        r@ == form_component(s@),
{
    url::form_urlencoded::byte_serialize(s.as_bytes()).collect()
}

/// A form body under construction; its view is the pairs appended so far.
pub struct FormBody {
    text: String,
    empty: bool,
    pairs: Ghost<FormPairs>,
}

impl View for FormBody {
    type V = FormPairs;

    closed spec fn view(&self) -> FormPairs {
        self.pairs@
    }
}

impl FormBody {
    /// The body's text matches its pairs.
    pub closed spec fn wf(&self) -> bool {
        &&& self.text@ == form_text(self.pairs@)
        &&& self.empty == (self.pairs@.len() == 0)
    }

    /// A body with no pairs.
    pub fn new() -> (r: FormBody)
        ensures
            r.wf(),
            r@ == Seq::<(Seq<char>, Seq<char>)>::empty(),
    {
        FormBody { text: String::new(), empty: true, pairs: Ghost(Seq::empty()) }
    }

    /// Appends the pair `key=value`, preceded by `&` unless it is the first.
    pub fn append_pair(&mut self, key: &str, value: &str)
        requires
            old(self).wf(),
        ensures
            final(self).wf(),
            final(self)@ == old(self)@.push((key@, value@)),
    {
        let ghost old_pairs = self.pairs@;
        let ghost p = (key@, value@);
        let k = serialize_component(key);
        let v = serialize_component(value);
        if !self.empty {
            self.text.append("&");
        }
        self.text.append(k.as_str());
        self.text.append("=");
        self.text.append(v.as_str());
        self.empty = false;
        self.pairs = Ghost(old_pairs.push(p));
        proof {
            reveal_strlit("&");
            reveal_strlit("=");
            let np = old_pairs.push(p);
            assert(np.drop_last() =~= old_pairs);
            assert(np.last() == p);
            if old_pairs.len() == 0 {
                assert(self.text@ =~= pair_text(p));
            } else {
                assert(self.text@ =~= form_text(old_pairs) + seq!['&'] + pair_text(p));
            }
        }
    }

    /// The finished body text.
    pub fn finish(self) -> (r: String)
        requires
            self.wf(),
        ensures
            r@ == form_text(self@),
    {
        self.text
    }
}

/// The spec form of a bracket key: `form`, `[`, `key`, `]`.
pub open spec fn bracket_key(form: Seq<char>, key: Seq<char>) -> Seq<char> {
    form + seq!['['] + key + seq![']']
}

/// Builds the bracket key `form[key]` under which a keyed item is posted.
pub fn make_form_key(form: &str, key: &str) -> (r: String)
    ensures
        r@ == bracket_key(form@, key@),
{
    let mut value = String::new();
    value.append(form);
    value.append("[");
    value.append(key);
    value.append("]");
    proof {
        reveal_strlit("[");
        reveal_strlit("]");
        assert(value@ =~= bracket_key(form@, key@));
    }
    value
}

} // verus!
