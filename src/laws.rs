//! Properties of the body encoding, stated over the message model and proved.

use crate::client::{
form_content, form_files, key_bcc, key_cc, key_to, key_to_name,
    keyed_pairs, list_pairs, post_body, post_pairs, scalar_keys, scalar_pairs,
};
use crate::form::{
    bracket_key, form_component, form_text, pair_text, pair_texts, serialized_byte,
    serialized_bytes, split_amp, FormPairs,
};
use crate::json::json_object_text;
use crate::mail::{entries_map, has_key, keys_unique, EntriesView, MailView};
use vstd::prelude::*;
use vstd::utf8::encode_utf8;

verus! {

/// The pairs of `p` whose key is `k`, in order.
pub open spec fn pairs_with_key(p: FormPairs, k: Seq<char>) -> FormPairs {
    p.filter(|q: (Seq<char>, Seq<char>)| q.0 == k)
}

proof fn lemma_none_with_key(p: FormPairs, k: Seq<char>)
    requires
        forall|i: int| 0 <= i < p.len() ==> p[i].0 != k,
    ensures
        pairs_with_key(p, k) == Seq::<(Seq<char>, Seq<char>)>::empty(),
    decreases p.len(),
{
    reveal(Seq::filter);
    if p.len() > 0 {
        lemma_none_with_key(p.drop_last(), k);
    }
}

proof fn lemma_all_with_key(p: FormPairs, k: Seq<char>)
    requires
        forall|i: int| 0 <= i < p.len() ==> p[i].0 == k,
    ensures
        pairs_with_key(p, k) == p,
    decreases p.len(),
{
    reveal(Seq::filter);
    if p.len() > 0 {
        lemma_all_with_key(p.drop_last(), k);
        assert(p.drop_last().push(p.last()) =~= p);
    }
}

/// The pairs with key `k` of the whole body are those of its seven parts.
proof fn lemma_split_by_part(m: MailView, h: Seq<char>, k: Seq<char>)
    ensures
        pairs_with_key(post_pairs(m, h), k) == pairs_with_key(list_pairs(key_to(), m.to), k)
            + pairs_with_key(list_pairs(key_to_name(), m.to_names), k) + pairs_with_key(
            list_pairs(key_cc(), m.cc),
            k,
        ) + pairs_with_key(list_pairs(key_bcc(), m.bcc), k) + pairs_with_key(
            keyed_pairs(form_files(), m.attachments),
            k,
        ) + pairs_with_key(keyed_pairs(form_content(), m.content), k) + pairs_with_key(
            scalar_pairs(m, h),
            k,
        ),
{
    broadcast use Seq::filter_distributes_over_add;

}

proof fn lemma_list_none(key: Seq<char>, items: Seq<Seq<char>>, k: Seq<char>)
    requires
        key != k,
    ensures
        pairs_with_key(list_pairs(key, items), k) == Seq::<(Seq<char>, Seq<char>)>::empty(),
{
    lemma_none_with_key(list_pairs(key, items), k);
}

proof fn lemma_list_all(key: Seq<char>, items: Seq<Seq<char>>)
    ensures
        pairs_with_key(list_pairs(key, items), key) == list_pairs(key, items),
{
    lemma_all_with_key(list_pairs(key, items), key);
}

/// No bracket key under `form` equals `k` where they differ at position `j`.
proof fn lemma_keyed_none(form: Seq<char>, e: EntriesView, k: Seq<char>, j: int)
    requires
        0 <= j < form.len(),
        j < k.len(),
        form[j] != k[j],
    ensures
        pairs_with_key(keyed_pairs(form, e), k) == Seq::<(Seq<char>, Seq<char>)>::empty(),
{
    let p = keyed_pairs(form, e);
    assert forall|i: int| 0 <= i < p.len() implies p[i].0 != k by {
        assert(p[i].0[j] == form[j]);
    }
    lemma_none_with_key(p, k);
}

/// No single-valued key ends with `]`.
proof fn lemma_scalar_none(m: MailView, h: Seq<char>, k: Seq<char>)
    requires
        k.len() > 0,
        k.last() == ']',
    ensures
        pairs_with_key(scalar_pairs(m, h), k) == Seq::<(Seq<char>, Seq<char>)>::empty(),
{
    let p = scalar_pairs(m, h);
    let ks = scalar_keys();
    assert(ks[0].last() != ']');
    assert(ks[1].last() != ']');
    assert(ks[2].last() != ']');
    assert(ks[3].last() != ']');
    assert(ks[4].last() != ']');
    assert(ks[5].last() != ']');
    assert(ks[6].last() != ']');
    assert(ks[7].last() != ']');
    assert(ks[8].last() != ']');
    assert forall|i: int| 0 <= i < p.len() implies p[i].0 != k by {
        assert(p[i].0 == ks[i]);
    }
    lemma_none_with_key(p, k);
}

/// Each recipient list contributes one pair per item under its own key, in
/// insertion order, and no other pair of the body carries that key: the
/// pairs keyed `to[]`, `toname[]`, `cc[]` and `bcc[]` are exactly the items of
/// `to`, `to_names`, `cc` and `bcc`.
pub proof fn lemma_list_fields_in_order(m: MailView, h: Seq<char>)
    ensures
        pairs_with_key(post_pairs(m, h), key_to()) == list_pairs(key_to(), m.to),
        pairs_with_key(post_pairs(m, h), key_to_name()) == list_pairs(key_to_name(), m.to_names),
        pairs_with_key(post_pairs(m, h), key_cc()) == list_pairs(key_cc(), m.cc),
        pairs_with_key(post_pairs(m, h), key_bcc()) == list_pairs(key_bcc(), m.bcc),
        pairs_with_key(post_pairs(m, h), key_to()).len() == m.to.len(),
        pairs_with_key(post_pairs(m, h), key_to_name()).len() == m.to_names.len(),
        pairs_with_key(post_pairs(m, h), key_cc()).len() == m.cc.len(),
        pairs_with_key(post_pairs(m, h), key_bcc()).len() == m.bcc.len(),
{
    let e = Seq::<(Seq<char>, Seq<char>)>::empty();
    assert(key_to()[1] != key_to_name()[2]);
    assert(key_to().len() != key_to_name().len());
    assert(key_to()[0] != key_cc()[0]);
    assert(key_to()[0] != key_bcc()[0]);
    assert(key_to_name()[0] != key_cc()[0]);
    assert(key_to_name()[0] != key_bcc()[0]);
    assert(key_cc()[0] != key_bcc()[0]);

    lemma_split_by_part(m, h, key_to());
    lemma_list_all(key_to(), m.to);
    lemma_list_none(key_to_name(), m.to_names, key_to());
    lemma_list_none(key_cc(), m.cc, key_to());
    lemma_list_none(key_bcc(), m.bcc, key_to());
    lemma_keyed_none(form_files(), m.attachments, key_to(), 0);
    lemma_keyed_none(form_content(), m.content, key_to(), 0);
    lemma_scalar_none(m, h, key_to());
    assert(pairs_with_key(post_pairs(m, h), key_to()) =~= list_pairs(key_to(), m.to));

    lemma_split_by_part(m, h, key_to_name());
    lemma_list_none(key_to(), m.to, key_to_name());
    lemma_list_all(key_to_name(), m.to_names);
    lemma_list_none(key_cc(), m.cc, key_to_name());
    lemma_list_none(key_bcc(), m.bcc, key_to_name());
    lemma_keyed_none(form_files(), m.attachments, key_to_name(), 0);
    lemma_keyed_none(form_content(), m.content, key_to_name(), 0);
    lemma_scalar_none(m, h, key_to_name());
    assert(pairs_with_key(post_pairs(m, h), key_to_name()) =~= list_pairs(
        key_to_name(),
        m.to_names,
    ));

    lemma_split_by_part(m, h, key_cc());
    lemma_list_none(key_to(), m.to, key_cc());
    lemma_list_none(key_to_name(), m.to_names, key_cc());
    lemma_list_all(key_cc(), m.cc);
    lemma_list_none(key_bcc(), m.bcc, key_cc());
    lemma_keyed_none(form_files(), m.attachments, key_cc(), 0);
    lemma_keyed_none(form_content(), m.content, key_cc(), 1);
    lemma_scalar_none(m, h, key_cc());
    assert(pairs_with_key(post_pairs(m, h), key_cc()) =~= list_pairs(key_cc(), m.cc));

    lemma_split_by_part(m, h, key_bcc());
    lemma_list_none(key_to(), m.to, key_bcc());
    lemma_list_none(key_to_name(), m.to_names, key_bcc());
    lemma_list_none(key_cc(), m.cc, key_bcc());
    lemma_list_all(key_bcc(), m.bcc);
    lemma_keyed_none(form_files(), m.attachments, key_bcc(), 0);
    lemma_keyed_none(form_content(), m.content, key_bcc(), 0);
    lemma_scalar_none(m, h, key_bcc());
    assert(pairs_with_key(post_pairs(m, h), key_bcc()) =~= list_pairs(key_bcc(), m.bcc));
}

proof fn lemma_bracket_injective(form: Seq<char>, a: Seq<char>, b: Seq<char>)
    requires
        bracket_key(form, a) == bracket_key(form, b),
    ensures
        a == b,
{
    let ka = bracket_key(form, a);
    assert(ka.len() == form.len() + a.len() + 2);
    assert(bracket_key(form, b).len() == form.len() + b.len() + 2);
    let lo: int = form.len() as int + 1;
    assert(a =~= ka.subrange(lo, lo + a.len() as int));
    assert(b =~= bracket_key(form, b).subrange(lo, lo + b.len() as int));
}

/// With unique keys, the entry with key `k` is the one at index `j`.
proof fn lemma_value_at(e: EntriesView, k: Seq<char>, j: int)
    requires
        keys_unique(e),
        0 <= j < e.len(),
        e[j].0 == k,
    ensures
        has_key(e, k),
        entries_map(e)[k] == e[j].1,
{
    assert(has_key(e, k));
    let c = choose|i: int| 0 <= i < e.len() && e[i].0 == k;
    assert(c == j);
}

proof fn lemma_keyed_unique(form: Seq<char>, e: EntriesView, k: Seq<char>)
    requires
        keys_unique(e),
        has_key(e, k),
    ensures
        pairs_with_key(keyed_pairs(form, e), bracket_key(form, k)) == seq![
            (bracket_key(form, k), entries_map(e)[k]),
        ],
    decreases e.len(),
{
    reveal(Seq::filter);
    let bk = bracket_key(form, k);
    let d = e.drop_last();
    let p = keyed_pairs(form, e);
    assert(p.drop_last() =~= keyed_pairs(form, d));
    assert(p.last() == (bracket_key(form, e.last().0), e.last().1));
    let j = choose|i: int| 0 <= i < e.len() && e[i].0 == k;
    lemma_value_at(e, k, j);
    if e.last().0 == k {
        assert(j == e.len() - 1);
        assert forall|i: int| 0 <= i < d.len() implies keyed_pairs(form, d)[i].0 != bk by {
            if keyed_pairs(form, d)[i].0 == bk {
                lemma_bracket_injective(form, d[i].0, k);
                assert(e[i].0 == e[e.len() - 1].0);
            }
        }
        lemma_none_with_key(keyed_pairs(form, d), bk);
        assert(pairs_with_key(p, bk) =~= seq![(bk, entries_map(e)[k])]);
    } else {
        if bracket_key(form, e.last().0) == bk {
            lemma_bracket_injective(form, e.last().0, k);
        }
        assert(j < e.len() - 1);
        assert(keys_unique(d));
        assert(d[j].0 == k);
        lemma_value_at(d, k, j);
        lemma_keyed_unique(form, d, k);
        assert(pairs_with_key(p, bk) == pairs_with_key(keyed_pairs(form, d), bk));
    }
}

/// Every attachment of a message produces exactly one pair of its body,
/// keyed `files[<name>]` and carrying its contents; every inline content
/// entry produces exactly one, keyed `content[<id>]` and carrying its value.
/// No key is dropped.
pub proof fn lemma_keyed_fields_complete(m: MailView, h: Seq<char>, k: Seq<char>)
    requires
        m.wf(),
    ensures
        has_key(m.attachments, k) ==> pairs_with_key(
            post_pairs(m, h),
            bracket_key(form_files(), k),
        ) == seq![(bracket_key(form_files(), k), entries_map(m.attachments)[k])],
        has_key(m.content, k) ==> pairs_with_key(
            post_pairs(m, h),
            bracket_key(form_content(), k),
        ) == seq![(bracket_key(form_content(), k), entries_map(m.content)[k])],
{
    let fk = bracket_key(form_files(), k);
    let ck = bracket_key(form_content(), k);
    assert(fk[0] == 'f' && fk[1] == 'i' && fk.last() == ']');
    assert(ck[0] == 'c' && ck[1] == 'o' && ck.last() == ']');
    if has_key(m.attachments, k) {
        lemma_split_by_part(m, h, fk);
        assert(key_to()[0] != fk[0]);
        assert(key_to_name()[0] != fk[0]);
        assert(key_cc()[0] != fk[0]);
        assert(key_bcc()[0] != fk[0]);
        lemma_list_none(key_to(), m.to, fk);
        lemma_list_none(key_to_name(), m.to_names, fk);
        lemma_list_none(key_cc(), m.cc, fk);
        lemma_list_none(key_bcc(), m.bcc, fk);
        lemma_keyed_unique(form_files(), m.attachments, k);
        lemma_keyed_none(form_content(), m.content, fk, 0);
        lemma_scalar_none(m, h, fk);
        assert(pairs_with_key(post_pairs(m, h), fk) =~= seq![
            (fk, entries_map(m.attachments)[k]),
        ]);
    }
    if has_key(m.content, k) {
        lemma_split_by_part(m, h, ck);
        assert(key_to()[0] != ck[0]);
        assert(key_to_name()[0] != ck[0]);
        assert(key_cc()[1] != ck[1]);
        assert(key_bcc()[0] != ck[0]);
        lemma_list_none(key_to(), m.to, ck);
        lemma_list_none(key_to_name(), m.to_names, ck);
        lemma_list_none(key_cc(), m.cc, ck);
        lemma_list_none(key_bcc(), m.bcc, ck);
        lemma_keyed_none(form_files(), m.attachments, ck, 0);
        lemma_keyed_unique(form_content(), m.content, k);
        lemma_scalar_none(m, h, ck);
        assert(pairs_with_key(post_pairs(m, h), ck) =~= seq![
            (ck, entries_map(m.content)[k]),
        ]);
    }
}

/// The body text is a function of the message model alone. As
/// `make_post_body` always returns `Ok` with
/// `post_body(m, json_object_text(m.headers))`, two messages with equal
/// models encode to byte-identical bodies.
pub proof fn lemma_encoding_deterministic(a: MailView, b: MailView, h: Seq<char>)
    requires
        a == b,
    ensures
        post_body(a, h) == post_body(b, h),
        post_body(a, json_object_text(a.headers)) == post_body(b, json_object_text(b.headers)),
{
}

proof fn lemma_serialized_no_separator(bs: Seq<u8>)
    ensures
        forall|j: int| 0 <= j < serialized_bytes(bs).len() ==> {
            let c = #[trigger] serialized_bytes(bs)[j];
            c != '&' && c != '='
        },
    decreases bs.len(),
{
    if bs.len() > 0 {
        lemma_serialized_no_separator(bs.drop_last());
        let b = bs.last();
        let t = serialized_byte(b);
        let prev = serialized_bytes(bs.drop_last());
        assert forall|j: int| 0 <= j < t.len() implies t[j] != '&' && t[j] != '=' by {
            if b != 0x26 && b != 0x3d {
                assert((b as char) != '&' && (b as char) != '=');
            }
        }
        let all = serialized_bytes(bs);
        assert(all == prev + t);
        assert forall|j: int| 0 <= j < all.len() implies all[j] != '&' && all[j] != '=' by {
            if j < prev.len() {
                assert(all[j] == prev[j]);
            } else {
                assert(all[j] == t[j - prev.len()]);
            }
        }
    }
}

/// No key or value text of a body holds a `&` or a `=`.
pub proof fn lemma_component_no_separator(s: Seq<char>)
    ensures
        forall|j: int| 0 <= j < form_component(s).len() ==> {
            let c = #[trigger] form_component(s)[j];
            c != '&' && c != '='
        },
{
    lemma_serialized_no_separator(encode_utf8(s));
}

proof fn lemma_split_len(t: Seq<char>)
    ensures
        split_amp(t).len() >= 1,
    decreases t.len(),
{
    if t.len() > 0 {
        lemma_split_len(t.drop_last());
    }
}

/// Appending `&` and a text with no `&` adds exactly that text as a piece.
proof fn lemma_split_append(a: Seq<char>, u: Seq<char>)
    requires
        forall|j: int| 0 <= j < u.len() ==> u[j] != '&',
    ensures
        split_amp(a + seq!['&'] + u) == split_amp(a).push(u),
    decreases u.len(),
{
    let t = a + seq!['&'] + u;
    if u.len() == 0 {
        assert(t.drop_last() =~= a);
        assert(t.last() == '&');
        assert(u =~= Seq::<char>::empty());
    } else {
        let u0 = u.drop_last();
        assert forall|j: int| 0 <= j < u0.len() implies u0[j] != '&' by {
            assert(u0[j] == u[j]);
        }
        assert(t.drop_last() =~= a + seq!['&'] + u0);
        lemma_split_append(a, u0);
        assert(t.last() == u[u.len() - 1]);
        assert(t.last() != '&');
        let r = split_amp(a).push(u0);
        assert(u0.push(u.last()) =~= u);
        assert(r.update(r.len() - 1, r.last().push(t.last())) =~= split_amp(a).push(u));
    }
}

/// A text with no `&` is one piece.
proof fn lemma_split_single(u: Seq<char>)
    requires
        forall|j: int| 0 <= j < u.len() ==> u[j] != '&',
    ensures
        split_amp(u) == seq![u],
    decreases u.len(),
{
    if u.len() > 0 {
        let u0 = u.drop_last();
        assert forall|j: int| 0 <= j < u0.len() implies u0[j] != '&' by {
            assert(u0[j] == u[j]);
        }
        lemma_split_single(u0);
        assert(u.last() == u[u.len() - 1]);
        assert(u.last() != '&');
        assert(u0.push(u.last()) =~= u);
        assert(seq![u0].update(0, u0.push(u.last())) =~= seq![u]);
    } else {
        assert(u =~= Seq::<char>::empty());
    }
}

proof fn lemma_pair_no_amp(p: (Seq<char>, Seq<char>))
    ensures
        forall|j: int| 0 <= j < pair_text(p).len() ==> pair_text(p)[j] != '&',
{
    lemma_component_no_separator(p.0);
    lemma_component_no_separator(p.1);
    let k = form_component(p.0);
    let v = form_component(p.1);
    assert forall|j: int| 0 <= j < pair_text(p).len() implies pair_text(p)[j] != '&' by {
        if j < k.len() {
            assert(pair_text(p)[j] == k[j]);
        } else if j > k.len() {
            assert(pair_text(p)[j] == v[j - k.len() - 1]);
        }
    }
}

/// A body splits at `&` into exactly the texts `key=value` of its pairs, in
/// order: no key or value text holds a `&` (nor a `=`, see
/// `lemma_component_no_separator`), so each piece is one pair.
pub proof fn lemma_body_splits_into_pairs(pairs: FormPairs)
    requires
        pairs.len() > 0,
    ensures
        split_amp(form_text(pairs)) == pair_texts(pairs),
    decreases pairs.len(),
{
    lemma_pair_no_amp(pairs.last());
    if pairs.len() == 1 {
        lemma_split_single(pair_text(pairs[0]));
        assert(pair_texts(pairs) =~= seq![pair_text(pairs[0])]);
    } else {
        let d = pairs.drop_last();
        lemma_body_splits_into_pairs(d);
        lemma_split_append(form_text(d), pair_text(pairs.last()));
        assert(pair_texts(pairs) =~= pair_texts(d).push(pair_text(pairs.last())));
    }
}

/// A message's body splits at `&` into exactly one piece `key=value` per
/// pair of `post_pairs`, in order. With `lemma_list_fields_in_order` and
/// `lemma_keyed_fields_complete`, which say which pairs there are under each
/// key, this gives the pieces that reach the wire.
pub proof fn lemma_post_body_pieces(m: MailView, h: Seq<char>)
    ensures
        split_amp(post_body(m, h)) == pair_texts(post_pairs(m, h)),
        split_amp(post_body(m, h)).len() == post_pairs(m, h).len(),
{
    assert(post_pairs(m, h).len() >= 9);
    lemma_body_splits_into_pairs(post_pairs(m, h));
}

} // verus!
