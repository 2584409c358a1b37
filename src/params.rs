//! How a query text reads as a list of parameters, and what the encoders
//! put into it.
use vstd::prelude::*;

use crate::model::SearchBy;
use crate::percent::{decoded_text, encoded_text, lemma_encoded_chars, lemma_text_round_trip};
use crate::query::{API_URI, info_query_of, search_by_query_of, search_query_of};

verus! {

/// The `&`-separated pieces of a text; the first piece holds the address.
pub open spec fn pieces(s: Seq<char>) -> Seq<Seq<char>>
    decreases s.len(),
{
    if s.len() == 0 {
        seq![Seq::empty()]
    } else if s.last() == '&' {
        pieces(s.drop_last()).push(Seq::empty())
    } else {
        let p = pieces(s.drop_last());
        p.update(p.len() - 1, p.last().push(s.last()))
    }
}

/// Whether a piece is a parameter named `key`: the key, then `=`.
pub open spec fn has_key(piece: Seq<char>, key: Seq<char>) -> bool {
    &&& piece.len() > key.len()
    &&& piece.subrange(0, key.len() as int) == key
    &&& piece[key.len() as int] == '='
}

/// The value of a parameter named `key`: what follows the `=`.
pub open spec fn value_of(piece: Seq<char>, key: Seq<char>) -> Seq<char> {
    piece.subrange(key.len() + 1int, piece.len() as int)
}

/// The values of every parameter named `key`, in order.
pub open spec fn values_of(ps: Seq<Seq<char>>, key: Seq<char>) -> Seq<Seq<char>>
    decreases ps.len(),
{
    if ps.len() == 0 {
        Seq::empty()
    } else if has_key(ps.last(), key) {
        values_of(ps.drop_last(), key).push(value_of(ps.last(), key))
    } else {
        values_of(ps.drop_last(), key)
    }
}

/// The parameters named `key` in a query text.
pub open spec fn params(s: Seq<char>, key: Seq<char>) -> Seq<Seq<char>> {
    values_of(pieces(s), key)
}

/// Whether a text holds no `&`.
pub open spec fn no_amp(s: Seq<char>) -> bool {
    forall|i: int| 0 <= i < s.len() ==> s[i] != '&'
}

/// An encoded value holds no `&`.
proof fn lemma_encoded_plain(s: Seq<char>)
    ensures
        no_amp(encoded_text(s)),
{
    lemma_encoded_chars(vstd::utf8::encode_utf8(s));
}

/// Every text has at least one piece.
proof fn lemma_pieces_nonempty(s: Seq<char>)
    ensures
        pieces(s).len() >= 1,
    decreases s.len(),
{
    if s.len() > 0 {
        lemma_pieces_nonempty(s.drop_last());
    }
}

/// A text without `&` is one piece.
proof fn lemma_pieces_plain(s: Seq<char>)
    requires
        no_amp(s),
    ensures
        pieces(s) == seq![s],
    decreases s.len(),
{
    if s.len() > 0 {
        let t = s.drop_last();
        lemma_pieces_plain(t);
        assert(s.last() != '&');
        assert(t.push(s.last()) =~= s);
        assert(pieces(s) =~= seq![s]);
    } else {
        assert(s =~= Seq::<char>::empty());
    }
}

/// Joining two texts with `&` joins their pieces.
proof fn lemma_pieces_join(a: Seq<char>, b: Seq<char>)
    ensures
        pieces(a + seq!['&'] + b) == pieces(a) + pieces(b),
    decreases b.len(),
{
    let ab = a + seq!['&'] + b;
    if b.len() == 0 {
        assert(ab.drop_last() =~= a);
        assert(pieces(ab) =~= pieces(a) + pieces(b));
    } else {
        let b0 = b.drop_last();
        lemma_pieces_join(a, b0);
        lemma_pieces_nonempty(b0);
        lemma_pieces_nonempty(a);
        assert(ab.drop_last() =~= a + seq!['&'] + b0);
        assert(ab.last() == b.last());
        assert(pieces(ab) =~= pieces(a) + pieces(b));
    }
}

/// The parameters of two runs of pieces are those of each, in order.
proof fn lemma_values_concat(ps: Seq<Seq<char>>, qs: Seq<Seq<char>>, key: Seq<char>)
    ensures
        values_of(ps + qs, key) == values_of(ps, key) + values_of(qs, key),
    decreases qs.len(),
{
    if qs.len() == 0 {
        assert(ps + qs =~= ps);
        assert(values_of(ps, key) + values_of(qs, key) =~= values_of(ps, key));
    } else {
        lemma_values_concat(ps, qs.drop_last(), key);
        assert((ps + qs).drop_last() =~= ps + qs.drop_last());
        assert(values_of(ps + qs, key) =~= values_of(ps, key) + values_of(qs, key));
    }
}

/// The parameters named `key` of a single piece.
proof fn lemma_values_single(piece: Seq<char>, key: Seq<char>)
    ensures
        values_of(seq![piece], key) == (if has_key(piece, key) {
            seq![value_of(piece, key)]
        } else {
            Seq::<Seq<char>>::empty()
        }),
{
    assert(seq![piece].drop_last() =~= Seq::<Seq<char>>::empty());
    assert(values_of(Seq::<Seq<char>>::empty(), key) =~= Seq::<Seq<char>>::empty());
    if has_key(piece, key) {
        assert(Seq::<Seq<char>>::empty().push(value_of(piece, key)) =~= seq![
            value_of(piece, key),
        ]);
    }
}

/// A piece whose first character is not the key's is no parameter of it.
proof fn lemma_first_char_differs(piece: Seq<char>, key: Seq<char>)
    requires
        piece.len() > 0,
        key.len() > 0,
        piece[0] != key[0],
    ensures
        !has_key(piece, key),
{
    if has_key(piece, key) {
        assert(piece.subrange(0, key.len() as int)[0] == piece[0]);
    }
}

/// The endpoint is one piece, and starts with `h`.
proof fn lemma_endpoint_pieces()
    ensures
        pieces(API_URI@) == seq![API_URI@],
        API_URI@.len() > 0,
        API_URI@[0] == 'h',
{
    reveal_strlit("https://aur.archlinux.org/rpc/?v=5");
    lemma_pieces_plain(API_URI@);
}

/// The pieces of an `info` query: the endpoint, the type, then one `arg[]`
/// piece for each name.
proof fn lemma_info_pieces(names: Seq<Seq<char>>)
    ensures
        pieces(info_query_of(API_URI@, names)) == seq![API_URI@, "type=info"@] + names.map_values(
            |n: Seq<char>| "arg[]="@ + encoded_text(n),
        ),
    decreases names.len(),
{
    reveal_strlit("&type=info");
    reveal_strlit("type=info");
    reveal_strlit("&arg[]=");
    reveal_strlit("arg[]=");
    lemma_endpoint_pieces();
    if names.len() == 0 {
        assert(info_query_of(API_URI@, names) =~= API_URI@ + seq!['&'] + "type=info"@);
        lemma_pieces_join(API_URI@, "type=info"@);
        lemma_pieces_plain("type=info"@);
        assert(pieces(info_query_of(API_URI@, names)) =~= seq![API_URI@, "type=info"@]
            + names.map_values(|n: Seq<char>| "arg[]="@ + encoded_text(n)));
    } else {
        let init = names.drop_last();
        lemma_info_pieces(init);
        let last = encoded_text(names.last());
        lemma_encoded_plain(names.last());
        let piece = "arg[]="@ + last;
        lemma_concat_plain("arg[]="@, last);
        lemma_pieces_plain(piece);
        assert(info_query_of(API_URI@, names) =~= info_query_of(API_URI@, init) + seq!['&']
            + piece);
        lemma_pieces_join(info_query_of(API_URI@, init), piece);
        assert(names.map_values(|n: Seq<char>| "arg[]="@ + encoded_text(n)) =~= init.map_values(
            |n: Seq<char>| "arg[]="@ + encoded_text(n),
        ).push(piece));
        assert(pieces(info_query_of(API_URI@, names)) =~= seq![API_URI@, "type=info"@]
            + names.map_values(|n: Seq<char>| "arg[]="@ + encoded_text(n)));
    }
}

/// The `arg[]` values of the pieces built from the names are the encoded
/// names.
proof fn lemma_arg_values(names: Seq<Seq<char>>)
    ensures
        values_of(names.map_values(|n: Seq<char>| "arg[]="@ + encoded_text(n)), "arg[]"@)
            == names.map_values(|n: Seq<char>| encoded_text(n)),
    decreases names.len(),
{
    reveal_strlit("arg[]=");
    reveal_strlit("arg[]");
    let ps = names.map_values(|n: Seq<char>| "arg[]="@ + encoded_text(n));
    if names.len() > 0 {
        let init = names.drop_last();
        lemma_arg_values(init);
        assert(ps.drop_last() =~= init.map_values(|n: Seq<char>| "arg[]="@ + encoded_text(n)));
        let piece = ps.last();
        assert(piece.subrange(0, 5) =~= "arg[]"@);
        assert(value_of(piece, "arg[]"@) =~= encoded_text(names.last()));
        assert(values_of(ps, "arg[]"@) =~= names.map_values(|n: Seq<char>| encoded_text(n)));
    } else {
        assert(values_of(ps, "arg[]"@) =~= names.map_values(|n: Seq<char>| encoded_text(n)));
    }
}

/// An `info` query holds exactly one `arg[]` parameter for each package name,
/// in the order given, and no other; each value is the encoded name, and
/// decodes to the name again.
pub proof fn lemma_info_args(names: Seq<Seq<char>>)
    ensures
        params(info_query_of(API_URI@, names), "arg[]"@) == names.map_values(
            |n: Seq<char>| encoded_text(n),
        ),
        params(info_query_of(API_URI@, names), "arg[]"@).len() == names.len(),
        forall|i: int|
            0 <= i < names.len() ==> decoded_text(
                #[trigger] params(info_query_of(API_URI@, names), "arg[]"@)[i],
            ) == names[i],
{
    reveal_strlit("type=info");
    reveal_strlit("arg[]");
    lemma_endpoint_pieces();
    lemma_info_pieces(names);
    let ps = names.map_values(|n: Seq<char>| "arg[]="@ + encoded_text(n));
    assert(seq![API_URI@, "type=info"@] + ps =~= seq![API_URI@] + seq!["type=info"@] + ps);
    lemma_values_concat(seq![API_URI@] + seq!["type=info"@], ps, "arg[]"@);
    lemma_values_concat(seq![API_URI@], seq!["type=info"@], "arg[]"@);
    lemma_values_single(API_URI@, "arg[]"@);
    lemma_values_single("type=info"@, "arg[]"@);
    lemma_first_char_differs(API_URI@, "arg[]"@);
    lemma_first_char_differs("type=info"@, "arg[]"@);
    lemma_arg_values(names);
    let enc = names.map_values(|n: Seq<char>| encoded_text(n));
    assert(Seq::<Seq<char>>::empty() + Seq::<Seq<char>>::empty() + enc =~= enc);
    assert forall|i: int| 0 <= i < names.len() implies decoded_text(#[trigger] enc[i])
        == names[i] by {
        lemma_text_round_trip(names[i]);
    }
}

/// The parameters of three pieces are those of each, in order.
proof fn lemma_three_pieces(a: Seq<char>, b: Seq<char>, c: Seq<char>, key: Seq<char>)
    ensures
        values_of(seq![a, b, c], key) == values_of(seq![a], key) + values_of(seq![b], key)
            + values_of(seq![c], key),
{
    assert(seq![a, b, c] =~= seq![a] + seq![b] + seq![c]);
    lemma_values_concat(seq![a] + seq![b], seq![c], key);
    lemma_values_concat(seq![a], seq![b], key);
    lemma_values_single(a, key);
    lemma_values_single(b, key);
    lemma_values_single(c, key);
}

/// A piece whose first character is not the key's adds no parameter.
proof fn lemma_not_param(piece: Seq<char>, key: Seq<char>)
    requires
        piece.len() > 0,
        key.len() > 0,
        piece[0] != key[0],
    ensures
        values_of(seq![piece], key).len() == 0,
{
    lemma_first_char_differs(piece, key);
    lemma_values_single(piece, key);
}

/// The pieces of a search with only a query text.
proof fn lemma_search_text_pieces(query: Seq<char>)
    ensures
        pieces(search_query_of(API_URI@, Some(query), None)) == seq![
            API_URI@,
            "type=search"@,
            "arg="@ + encoded_text(query),
        ],
        "type=search"@.len() > 0,
        "type=search"@[0] == 't',
        ("arg="@ + encoded_text(query)).len() >= 4,
        ("arg="@ + encoded_text(query))[0] == 'a',
{
    reveal_strlit("&type=search");
    reveal_strlit("type=search");
    reveal_strlit("&arg=");
    reveal_strlit("arg=");
    lemma_endpoint_pieces();
    let s = search_query_of(API_URI@, Some(query), None);
    let piece = "arg="@ + encoded_text(query);
    lemma_encoded_plain(query);
    lemma_concat_plain("arg="@, encoded_text(query));
    assert(s =~= API_URI@ + seq!['&'] + "type=search"@ + seq!['&'] + piece);
    lemma_pieces_join(API_URI@, "type=search"@);
    lemma_pieces_join(API_URI@ + seq!['&'] + "type=search"@, piece);
    lemma_pieces_plain("type=search"@);
    lemma_pieces_plain(piece);
    assert(pieces(s) =~= seq![API_URI@, "type=search"@, piece]);
}

/// A search with only a query text holds one `arg` parameter, the encoded
/// text, which decodes to the text again, and neither a `maintainer` nor a
/// `by` parameter.
pub proof fn lemma_search_text_only(query: Seq<char>)
    ensures
        params(search_query_of(API_URI@, Some(query), None), "arg"@) == seq![encoded_text(query)],
        decoded_text(encoded_text(query)) == query,
        params(search_query_of(API_URI@, Some(query), None), "maintainer"@).len() == 0,
        params(search_query_of(API_URI@, Some(query), None), "by"@).len() == 0,
{
    lemma_endpoint_pieces();
    lemma_search_text_pieces(query);
    let piece = "arg="@ + encoded_text(query);
    let ty = "type=search"@;
    let a = API_URI@;
    assert("maintainer"@.len() > 0 && "maintainer"@[0] == 'm') by {
        reveal_strlit("maintainer");
    }
    assert("by"@.len() > 0 && "by"@[0] == 'b') by {
        reveal_strlit("by");
    }
    assert("arg"@ =~= seq!['a', 'r', 'g']) by {
        reveal_strlit("arg");
    }
    lemma_three_pieces(a, ty, piece, "arg"@);
    lemma_three_pieces(a, ty, piece, "maintainer"@);
    lemma_three_pieces(a, ty, piece, "by"@);
    lemma_not_param(a, "arg"@);
    lemma_not_param(a, "maintainer"@);
    lemma_not_param(a, "by"@);
    lemma_not_param(ty, "arg"@);
    lemma_not_param(ty, "maintainer"@);
    lemma_not_param(ty, "by"@);
    lemma_not_param(piece, "maintainer"@);
    lemma_not_param(piece, "by"@);
    assert("arg="@ =~= seq!['a', 'r', 'g', '=']) by {
        reveal_strlit("arg=");
    }
    assert(piece.subrange(0, 3) =~= "arg"@);
    assert(value_of(piece, "arg"@) =~= encoded_text(query));
    lemma_values_single(piece, "arg"@);
    assert(values_of(seq![a, ty, piece], "arg"@) =~= seq![encoded_text(query)]);
    lemma_text_round_trip(query);
}

/// No search token holds `&`.
proof fn lemma_token_plain(by: SearchBy)
    ensures
        no_amp(by.token()),
{
    reveal_strlit("name");
    reveal_strlit("name-desc");
    reveal_strlit("maintainer");
    reveal_strlit("depends");
    reveal_strlit("makedepends");
    reveal_strlit("optdepends");
    reveal_strlit("checkdepends");
}

/// Two texts without `&` make a text without `&`.
proof fn lemma_concat_plain(prefix: Seq<char>, rest: Seq<char>)
    requires
        no_amp(prefix),
        no_amp(rest),
    ensures
        no_amp(prefix + rest),
{
    let t = prefix + rest;
    assert forall|i: int| 0 <= i < t.len() implies t[i] != '&' by {
        if i >= prefix.len() {
            assert(t[i] == rest[i - prefix.len()]);
        } else {
            assert(t[i] == prefix[i]);
        }
    }
}

/// The pieces of a search on a named field.
proof fn lemma_search_by_pieces(query: Seq<char>, by: SearchBy)
    ensures
        pieces(search_by_query_of(API_URI@, query, by)) == seq![
            API_URI@,
            "type=search"@,
            "arg="@ + encoded_text(query),
            "by="@ + by.token(),
        ],
        "type=search"@.len() > 0,
        "type=search"@[0] == 't',
        ("arg="@ + encoded_text(query)).len() > 0,
        ("arg="@ + encoded_text(query))[0] == 'a',
        ("by="@ + by.token()).len() >= 3,
        ("by="@ + by.token()).subrange(0, 3) == "by="@,
{
    reveal_strlit("&type=search&arg=");
    reveal_strlit("type=search");
    reveal_strlit("arg=");
    reveal_strlit("&by=");
    reveal_strlit("by=");
    lemma_endpoint_pieces();
    lemma_token_plain(by);
    let a = "arg="@ + encoded_text(query);
    let b = "by="@ + by.token();
    lemma_encoded_plain(query);
    lemma_concat_plain("arg="@, encoded_text(query));
    lemma_concat_plain("by="@, by.token());
    let s = search_by_query_of(API_URI@, query, by);
    let x = API_URI@ + seq!['&'] + "type=search"@;
    let y = x + seq!['&'] + a;
    assert(s =~= y + seq!['&'] + b);
    lemma_pieces_join(API_URI@, "type=search"@);
    lemma_pieces_join(x, a);
    lemma_pieces_join(y, b);
    lemma_pieces_plain("type=search"@);
    lemma_pieces_plain(a);
    lemma_pieces_plain(b);
    assert(pieces(s) =~= seq![API_URI@, "type=search"@, a, b]);
    assert(b.subrange(0, 3) =~= "by="@);
}

/// The parameters of four pieces are those of each, in order.
proof fn lemma_four_pieces(
    a: Seq<char>,
    b: Seq<char>,
    c: Seq<char>,
    d: Seq<char>,
    key: Seq<char>,
)
    ensures
        values_of(seq![a, b, c, d], key) == values_of(seq![a], key) + values_of(seq![b], key)
            + values_of(seq![c], key) + values_of(seq![d], key),
{
    assert(seq![a, b, c, d] =~= seq![a, b, c] + seq![d]);
    lemma_values_concat(seq![a, b, c], seq![d], key);
    lemma_three_pieces(a, b, c, key);
    lemma_values_single(d, key);
}

/// The value of a piece made of the key, `=`, and a value.
proof fn lemma_param_piece(key: Seq<char>, value: Seq<char>)
    ensures
        values_of(seq![key + seq!['='] + value], key) == seq![value],
{
    let piece = key + seq!['='] + value;
    assert(piece.subrange(0, key.len() as int) =~= key);
    assert(value_of(piece, key) =~= value);
    lemma_values_single(piece, key);
}

/// The characters of the keys that the laws speak of.
proof fn lemma_key_chars()
    ensures
        "arg"@ == seq!['a', 'r', 'g'],
        "by"@ == seq!['b', 'y'],
        "maintainer"@.len() > 0 && "maintainer"@[0] == 'm',
        "arg="@ == "arg"@ + seq!['='],
        "by="@ == "by"@ + seq!['='],
        "maintainer="@ == "maintainer"@ + seq!['='],
{
    reveal_strlit("arg");
    reveal_strlit("by");
    reveal_strlit("maintainer");
    reveal_strlit("arg=");
    reveal_strlit("by=");
    reveal_strlit("maintainer=");
    assert("arg"@ =~= seq!['a', 'r', 'g']);
    assert("by"@ =~= seq!['b', 'y']);
    assert("arg="@ =~= "arg"@ + seq!['=']);
    assert("by="@ =~= "by"@ + seq!['=']);
    assert("maintainer="@ =~= "maintainer"@ + seq!['=']);
}

/// A search on a named field holds one `by` parameter, whose value is the
/// token of that field, one `arg` parameter, the encoded text, and no
/// `maintainer` parameter, whatever the query text.
pub proof fn lemma_search_by_token(query: Seq<char>, by: SearchBy)
    ensures
        params(search_by_query_of(API_URI@, query, by), "by"@) == seq![by.token()],
        params(search_by_query_of(API_URI@, query, by), "arg"@) == seq![encoded_text(query)],
        params(search_by_query_of(API_URI@, query, by), "maintainer"@).len() == 0,
{
    lemma_endpoint_pieces();
    lemma_search_by_pieces(query, by);
    lemma_key_chars();
    let a = "arg="@ + encoded_text(query);
    let b = "by="@ + by.token();
    let ty = "type=search"@;
    assert(a =~= "arg"@ + seq!['='] + encoded_text(query));
    assert(b =~= "by"@ + seq!['='] + by.token());
    lemma_param_piece("arg"@, encoded_text(query));
    lemma_param_piece("by"@, by.token());
    lemma_four_pieces(API_URI@, ty, a, b, "by"@);
    lemma_four_pieces(API_URI@, ty, a, b, "arg"@);
    lemma_four_pieces(API_URI@, ty, a, b, "maintainer"@);
    lemma_not_param(API_URI@, "by"@);
    lemma_not_param(ty, "by"@);
    lemma_not_param(a, "by"@);
    lemma_not_param(API_URI@, "arg"@);
    lemma_not_param(ty, "arg"@);
    lemma_not_param(b, "arg"@);
    lemma_not_param(API_URI@, "maintainer"@);
    lemma_not_param(ty, "maintainer"@);
    lemma_not_param(a, "maintainer"@);
    lemma_not_param(b, "maintainer"@);
    let e = Seq::<Seq<char>>::empty();
    assert(e + e + e + seq![by.token()] =~= seq![by.token()]);
    assert(e + e + seq![encoded_text(query)] + e =~= seq![encoded_text(query)]);
}

/// A search with a query text and a maintainer holds one `arg` parameter
/// and one `maintainer` parameter, each the encoded text, and no `by`
/// parameter.
pub proof fn lemma_search_with_maintainer(query: Seq<char>, maintainer: Seq<char>)
    ensures
        params(search_query_of(API_URI@, Some(query), Some(maintainer)), "arg"@) == seq![
            encoded_text(query),
        ],
        params(search_query_of(API_URI@, Some(query), Some(maintainer)), "maintainer"@)
            == seq![encoded_text(maintainer)],
        params(search_query_of(API_URI@, Some(query), Some(maintainer)), "by"@).len() == 0,
{
    reveal_strlit("&type=search");
    reveal_strlit("type=search");
    reveal_strlit("&arg=");
    reveal_strlit("&maintainer=");
    reveal_strlit("maintainer=");
    reveal_strlit("arg=");
    lemma_endpoint_pieces();
    lemma_key_chars();
    let s = search_query_of(API_URI@, Some(query), Some(maintainer));
    let ty = "type=search"@;
    let a = "arg="@ + encoded_text(query);
    let m = "maintainer="@ + encoded_text(maintainer);
    lemma_encoded_plain(query);
    lemma_encoded_plain(maintainer);
    lemma_concat_plain("arg="@, encoded_text(query));
    lemma_concat_plain("maintainer="@, encoded_text(maintainer));
    let x = API_URI@ + seq!['&'] + ty;
    let y = x + seq!['&'] + a;
    assert(s =~= y + seq!['&'] + m);
    lemma_pieces_join(API_URI@, ty);
    lemma_pieces_join(x, a);
    lemma_pieces_join(y, m);
    lemma_pieces_plain(ty);
    lemma_pieces_plain(a);
    lemma_pieces_plain(m);
    assert(pieces(s) =~= seq![API_URI@, ty, a, m]);
    assert(a =~= "arg"@ + seq!['='] + encoded_text(query));
    assert(m =~= "maintainer"@ + seq!['='] + encoded_text(maintainer));
    lemma_param_piece("arg"@, encoded_text(query));
    lemma_param_piece("maintainer"@, encoded_text(maintainer));
    lemma_four_pieces(API_URI@, ty, a, m, "arg"@);
    lemma_four_pieces(API_URI@, ty, a, m, "maintainer"@);
    lemma_four_pieces(API_URI@, ty, a, m, "by"@);
    lemma_not_param(API_URI@, "arg"@);
    lemma_not_param(ty, "arg"@);
    lemma_not_param(m, "arg"@);
    lemma_not_param(API_URI@, "maintainer"@);
    lemma_not_param(ty, "maintainer"@);
    lemma_not_param(a, "maintainer"@);
    lemma_not_param(API_URI@, "by"@);
    lemma_not_param(ty, "by"@);
    lemma_not_param(a, "by"@);
    lemma_not_param(m, "by"@);
    let e = Seq::<Seq<char>>::empty();
    assert(e + e + seq![encoded_text(query)] + e =~= seq![encoded_text(query)]);
    assert(e + e + e + seq![encoded_text(maintainer)] =~= seq![encoded_text(maintainer)]);
}

} // verus!
