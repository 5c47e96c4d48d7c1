//! What reading a `Link` header gives for headers of the usual shape.

use vstd::prelude::*;
use crate::link::{LinkError, LinkTokens, entry_tokens, link_relations, parsed_url, rel_token, url_token, with_entries, with_entry, with_parsed};
use crate::text::{CharClass, first_index, is_whitespace, lemma_first_index, lemma_first_index_is, strip, strip_end, strip_start, without};

verus! {

/// A text that holds neither `,` nor `;`, the separators of a `Link` header.
pub open spec fn unbroken(text: Seq<char>) -> bool {
    forall|i: int|
        0 <= i < text.len() ==> {
            let c = #[trigger] text[i];
            c != ',' && c != ';'
        }
}

/// A URL that stands between the angle brackets as it is: it holds no angle
/// bracket and has no whitespace at either end.
pub open spec fn plain_url(url: Seq<char>) -> bool {
    &&& forall|i: int|
        0 <= i < url.len() ==> {
            let c = #[trigger] url[i];
            c != '<' && c != '>'
        }
    &&& url.len() > 0 ==> !is_whitespace(url[0]) && !is_whitespace(url.last())
}

/// The URL token of a plain URL is the URL itself.
pub proof fn lemma_url_token_plain(url: Seq<char>)
    requires
        plain_url(url),
    ensures
        url_token(url) == url,
{
    lemma_without_none(url, CharClass::AngleBracket);
    assert(strip_start(url, CharClass::Whitespace) == url);
    assert(strip_end(url, CharClass::Whitespace) == url);
}

/// A relation name as it stands between quotes: not empty, with neither a
/// quote nor whitespace at either end.
pub open spec fn plain_rel(rel: Seq<char>) -> bool {
    &&& rel.len() > 0
    &&& rel[0] != '"' && rel.last() != '"'
    &&& !is_whitespace(rel[0]) && !is_whitespace(rel.last())
}

/// The entry `<url>; rel="rel"`, after `pad`.
pub open spec fn entry_text(pad: Seq<char>, url: Seq<char>, rel: Seq<char>) -> Seq<char> {
    pad + seq!['<'] + url + seq!['>', ';', ' ', 'r', 'e', 'l', '=', '"'] + rel + seq!['"']
}

/// Where `a` holds no `c`, the first `c` of `a + b` is the first `c` of `b`.
pub proof fn lemma_first_index_concat(a: Seq<char>, b: Seq<char>, c: char)
    requires
        forall|i: int| 0 <= i < a.len() ==> a[i] != c,
    ensures
        first_index(a + b, c) == a.len() + first_index(b, c),
{
    lemma_first_index(b, c);
    let k = a.len() + first_index(b, c);
    let s = a + b;
    assert forall|i: int| 0 <= i < k implies s[i] != c by {
        if i >= a.len() {
            assert(s[i] == b[i - a.len()]);
        }
    }
    if k < s.len() {
        assert(s[k] == b[first_index(b, c)]);
    }
    lemma_first_index_is(s, c, k);
}

/// Taking a class out of a text takes it out of each of its parts.
pub proof fn lemma_without_concat(a: Seq<char>, b: Seq<char>, class: CharClass)
    ensures
        without(a + b, class) == without(a, class) + without(b, class),
    decreases b.len(),
{
    if b.len() == 0 {
        assert(a + b == a);
        assert(without(a, class) + without(b, class) == without(a, class));
    } else {
        let s = a + b;
        assert(s.drop_last() == a + b.drop_last());
        assert(s.last() == b.last());
        lemma_without_concat(a, b.drop_last(), class);
        if !class.contains(b.last()) {
            assert((without(a, class) + without(b.drop_last(), class)).push(b.last()) == without(
                a,
                class,
            ) + without(b.drop_last(), class).push(b.last()));
        }
    }
}

/// A text that holds no character of a class is left as it is.
pub proof fn lemma_without_none(s: Seq<char>, class: CharClass)
    requires
        forall|i: int| 0 <= i < s.len() ==> !class.contains(#[trigger] s[i]),
    ensures
        without(s, class) == s,
    decreases s.len(),
{
    if s.len() > 0 {
        lemma_without_none(s.drop_last(), class);
        assert(s.drop_last().push(s.last()) == s);
    }
}

/// Leading characters of the class do not change what stripping gives.
pub proof fn lemma_strip_start_pad(pad: Seq<char>, s: Seq<char>, class: CharClass)
    requires
        forall|i: int| 0 <= i < pad.len() ==> class.contains(#[trigger] pad[i]),
    ensures
        strip_start(pad + s, class) == strip_start(s, class),
        strip(pad + s, class) == strip(s, class),
    decreases pad.len(),
{
    if pad.len() == 0 {
        assert(pad + s == s);
    } else {
        let t = pad + s;
        assert(t[0] == pad[0]);
        assert(t.drop_first() == pad.drop_first() + s);
        lemma_strip_start_pad(pad.drop_first(), s, class);
    }
}

/// An entry of the usual shape gives the URL token of what stands between
/// the brackets and the name between the quotes, and holds no `,`.
pub proof fn law_entry_tokens(pad: Seq<char>, url: Seq<char>, rel: Seq<char>)
    requires
        forall|i: int| 0 <= i < pad.len() ==> #[trigger] pad[i] == ' ',
        unbroken(url),
        unbroken(rel),
        plain_rel(rel),
    ensures
        entry_tokens(entry_text(pad, url, rel)) == Some(
            LinkTokens { url: url_token(url), rel: Some(rel) },
        ),
        forall|i: int|
            0 <= i < entry_text(pad, url, rel).len() ==> entry_text(pad, url, rel)[i] != ',',
{
    let entry = entry_text(pad, url, rel);
    let first = pad + seq!['<'] + url + seq!['>'];
    let second = seq![' ', 'r', 'e', 'l', '=', '"'] + rel + seq!['"'];
    assert(entry =~= first + (seq![';'] + second));
    // The parts of the entry.
    lemma_first_index_concat(first, seq![';'] + second, ';');
    assert((seq![';'] + second)[0] == ';');
    let i = first_index(entry, ';');
    assert(i == first.len());
    assert(entry[i] == ';');
    assert(entry.contains(';'));
    assert(entry.take(i) =~= first);
    assert(entry.skip(i + 1) =~= second);
    assert(!second.contains(';'));
    // The URL token.
    let angle = CharClass::AngleBracket;
    let space = CharClass::Whitespace;
    lemma_without_concat(pad + seq!['<'] + url, seq!['>'], angle);
    lemma_without_concat(pad + seq!['<'], url, angle);
    lemma_without_concat(pad, seq!['<'], angle);
    lemma_without_none(pad, angle);
    assert(without(seq!['<'], angle) =~= Seq::<char>::empty()) by {
        assert(seq!['<'].drop_last() =~= Seq::<char>::empty());
        assert(without(Seq::<char>::empty(), angle) =~= Seq::<char>::empty());
    }
    assert(without(seq!['>'], angle) =~= Seq::<char>::empty()) by {
        assert(seq!['>'].drop_last() =~= Seq::<char>::empty());
        assert(without(Seq::<char>::empty(), angle) =~= Seq::<char>::empty());
    }
    assert(without(first, angle) =~= pad + without(url, angle));
    lemma_strip_start_pad(pad, without(url, angle), space);
    assert(url_token(first) == url_token(url));
    // The relation name.
    let quote = CharClass::Quote;
    let head = seq![' ', 'r', 'e', 'l'];
    let tail = seq!['=', '"'] + rel + seq!['"'];
    assert(second =~= head + tail);
    lemma_first_index_concat(head, tail, '=');
    assert(tail[0] == '=');
    assert(first_index(second, '=') == 4);
    assert(second[4] == '=');
    assert(second.contains('='));
    let quoted = seq!['"'] + rel + seq!['"'];
    assert(second.skip(5) =~= quoted);
    assert(quoted[0] == '"');
    assert(quoted.drop_first() =~= rel + seq!['"']);
    assert((rel + seq!['"'])[0] == rel[0]);
    assert(strip_start(rel + seq!['"'], quote) == rel + seq!['"']);
    assert(strip_start(quoted, quote) == rel + seq!['"']);
    assert((rel + seq!['"']).last() == '"');
    assert((rel + seq!['"']).drop_last() =~= rel);
    assert(strip_end(rel, quote) == rel);
    assert(strip_end(rel + seq!['"'], quote) == rel);
    assert(strip(quoted, quote) == rel);
    assert(strip_start(rel, space) == rel);
    assert(strip_end(rel, space) == rel);
    assert(rel_token(second) == Some(rel));
}

/// For every header of the form `<url1>; rel="next", <url2>; rel="last"`
/// whose URLs hold neither `,` nor `;`, reading it gives exactly two
/// relations, `next` with the URL parsed from `url1` and `last` with the URL
/// parsed from `url2`; where one of the two is no absolute URL, reading
/// fails with `InvalidUrl`. What is parsed is the URL token: the text between
/// the brackets itself wherever that is a plain URL.
pub proof fn law_next_and_last(url1: Seq<char>, url2: Seq<char>)
    requires
        unbroken(url1),
        unbroken(url2),
    ensures
        link_relations("<"@ + url1 + ">; rel=\"next\", <"@ + url2 + ">; rel=\"last\""@) == match (
            parsed_url(url_token(url1)),
            parsed_url(url_token(url2)),
        ) {
            (Some(first), Some(second)) => Ok::<Map<Seq<char>, Seq<char>>, LinkError>(
                Map::<Seq<char>, Seq<char>>::empty().insert("next"@, first).insert("last"@, second),
            ),
            _ => Err::<Map<Seq<char>, Seq<char>>, LinkError>(LinkError::InvalidUrl),
        },
        plain_url(url1) ==> url_token(url1) == url1,
        plain_url(url2) ==> url_token(url2) == url2,
{
    reveal_strlit("<");
    reveal_strlit(">; rel=\"next\", <");
    reveal_strlit(">; rel=\"last\"");
    reveal_strlit("next");
    reveal_strlit("last");
    let header = "<"@ + url1 + ">; rel=\"next\", <"@ + url2 + ">; rel=\"last\""@;
    let next = "next"@;
    let last = "last"@;
    assert(next =~= seq!['n', 'e', 'x', 't']);
    assert(last =~= seq!['l', 'a', 's', 't']);
    let none = Seq::<char>::empty();
    let e1 = entry_text(none, url1, next);
    let e2 = entry_text(seq![' '], url2, last);
    assert(header =~= e1 + (seq![','] + e2));
    law_entry_tokens(none, url1, next);
    law_entry_tokens(seq![' '], url2, last);
    lemma_first_index_concat(e1, seq![','] + e2, ',');
    assert((seq![','] + e2)[0] == ',');
    let i = first_index(header, ',');
    assert(i == e1.len());
    assert(header.take(i) =~= e1);
    assert(header.skip(i + 1) =~= e2);
    lemma_first_index_is(e2, ',', e2.len() as int);
    let empty = Map::<Seq<char>, Seq<char>>::empty();
    assert(with_entry(empty, e1) == with_parsed(empty, Some(next), parsed_url(url_token(url1))));
    if parsed_url(url_token(url1)) is Some {
        let m1 = empty.insert(next, parsed_url(url_token(url1))->Some_0);
        assert(with_entries(m1, e2) == with_entry(m1, e2));
        assert(with_entry(m1, e2) == with_parsed(m1, Some(last), parsed_url(url_token(url2))));
        assert(with_entries(empty, header) == with_entries(m1, e2));
    }
    if plain_url(url1) {
        lemma_url_token_plain(url1);
    }
    if plain_url(url2) {
        lemma_url_token_plain(url2);
    }
}

} // verus!
