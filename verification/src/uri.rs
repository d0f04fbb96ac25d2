//! Rules on input URIs.

use vstd::prelude::*;

use crate::text::{
    chars_of, cut_after_last, cut_before, cut_before_last, has_prefix, has_suffix, lower_chars,
    string_of,
};
#[allow(unused_imports)]
use crate::text::{
    after_last, before, before_last, law_cutting_at_the_last_mark_parts_the_text, lower,
};

verus! {

/// Whether `input` names an HLS playlist served over HTTP: its path, which a
/// query or a fragment ends, ends in `.m3u8`. Case does not matter.
pub open spec fn names_http_playlist(input: Seq<char>) -> bool {
    let l = lower(input);
    let path = before(before(l, '?'), '#');
    &&& "https://"@.is_prefix_of(l) || "http://"@.is_prefix_of(l)
    &&& ".m3u8"@.is_suffix_of(path)
}

/// What `input` is opened as: an HLS playlist over HTTP under the `hls+` scheme,
/// everything else as it stands.
pub open spec fn playback_input(input: Seq<char>) -> Seq<char> {
    if names_http_playlist(input) {
        "hls+"@ + input
    } else {
        input
    }
}

/// The last segment of the path of `uri`, which a query ends.
pub open spec fn last_segment(uri: Seq<char>) -> Seq<char> {
    after_last(before(uri, '?'), '/')
}

/// The title that `uri` suggests: its last path segment without the extension.
pub open spec fn uri_stem(uri: Seq<char>) -> Option<Seq<char>> {
    let segment = last_segment(uri);
    let stem = match before_last(segment, '.') {
        Some(s) => s,
        None => segment,
    };
    if stem.len() == 0 {
        None
    } else {
        Some(stem)
    }
}

/// What stands behind the last `/` of `uri`, wherever that is, without a query.
pub open spec fn tail_of(uri: Seq<char>) -> Seq<char> {
    before(after_last(uri, '/'), '?')
}

/// The extension at the tail of `uri`, in lower case.
pub open spec fn uri_ext(uri: Seq<char>) -> Option<Seq<char>> {
    let segment = tail_of(uri);
    if segment.contains('.') {
        Some(lower(after_last(segment, '.')))
    } else {
        None
    }
}

/// What `input` is opened as.
pub fn normalise_playback_input(input: &str) -> (r: String)
    ensures
        r@ == playback_input(input@),
{
    let chars = chars_of(input);
    let lower_input = lower_chars(&chars);
    let query_free = cut_before(&lower_input, '?');
    let path = cut_before(&query_free, '#');
    let https = chars_of("https://");
    let http = chars_of("http://");
    let ext = chars_of(".m3u8");
    if (has_prefix(&lower_input, &https) || has_prefix(&lower_input, &http)) && has_suffix(
        &path,
        &ext,
    ) {
        let mut r = String::new();
        r.append("hls+");
        r.append(input);
        assert(r@ == "hls+"@ + input@);
        r
    } else {
        input.to_owned()
    }
}

/// The title that `uri` suggests, for a source that carries none.
pub fn filename_stem_from_uri(uri: &str) -> (r: Option<String>)
    ensures
        r is Some <==> uri_stem(uri@) is Some,
        r matches Some(s) ==> s@ == uri_stem(uri@)->0,
{
    let chars = chars_of(uri);
    let path = cut_before(&chars, '?');
    let segment = cut_after_last(&path, '/');
    let stem = match cut_before_last(&segment, '.') {
        Some(s) => s,
        None => segment,
    };
    if stem.len() == 0 {
        None
    } else {
        Some(string_of(&stem))
    }
}

/// The extension of `uri`, in lower case: a hint for the container probe.
pub fn ext_from_uri(uri: &str) -> (r: Option<String>)
    ensures
        r is Some <==> uri_ext(uri@) is Some,
        r matches Some(s) ==> s@ == uri_ext(uri@)->0,
{
    let chars = chars_of(uri);
    let tail = cut_after_last(&chars, '/');
    let segment = cut_before(&tail, '?');
    proof {
        lemma_before_last_finds(segment@, '.');
    }
    match cut_before_last(&segment, '.') {
        Some(_) => {
            let ext = cut_after_last(&segment, '.');
            let ext = lower_chars(&ext);
            Some(string_of(&ext))
        },
        None => None,
    }
}

proof fn lemma_before_last_finds(s: Seq<char>, mark: char)
    ensures
        before_last(s, mark) is Some <==> s.contains(mark),
    decreases s.len(),
{
    if s.len() > 0 {
        lemma_before_last_finds(s.drop_last(), mark);
        if s.last() == mark {
            assert(s[s.len() - 1] == mark);
        } else {
            if s.drop_last().contains(mark) {
                let i = choose|i: int| 0 <= i < s.len() - 1 && s.drop_last()[i] == mark;
                assert(s[i] == mark);
            }
            if s.contains(mark) {
                let i = choose|i: int| 0 <= i < s.len() && s[i] == mark;
                assert(s.drop_last()[i] == mark);
            }
        }
    }
}

// ───────────────────── laws ─────────────────────

/// An input that has been put under the `hls+` scheme stays as it is.
pub proof fn law_normalising_twice_is_normalising_once(input: Seq<char>)
    ensures
        playback_input(playback_input(input)) == playback_input(input),
{
    if names_http_playlist(input) {
        let again = "hls+"@ + input;
        reveal_strlit("hls+");
        reveal_strlit("https://");
        reveal_strlit("http://");
        assert(lower(again)[1] == 'l');
        assert(!"https://"@.is_prefix_of(lower(again))) by {
            if "https://"@.is_prefix_of(lower(again)) {
                assert(lower(again).subrange(0, 8)[1] == "https://"@[1]);
            }
        }
        assert(!"http://"@.is_prefix_of(lower(again))) by {
            if "http://"@.is_prefix_of(lower(again)) {
                assert(lower(again).subrange(0, 7)[1] == "http://"@[1]);
            }
        }
    }
}

/// Normalising only ever puts a scheme in front: the input itself is kept,
/// letter for letter.
pub proof fn law_normalising_keeps_the_input(input: Seq<char>)
    ensures
        input.is_suffix_of(playback_input(input)),
{
    let out = playback_input(input);
    assert(input =~= out.subrange(out.len() - input.len(), out.len() as int));
}

/// A title is part of one path segment: it holds neither a path separator nor
/// anything of a query, and neither does an extension.
pub proof fn law_titles_are_single_segments(uri: Seq<char>)
    ensures
        uri_stem(uri) matches Some(s) ==> !s.contains('/') && !s.contains('?'),
        uri_ext(uri) matches Some(e) ==> !e.contains('/') && !e.contains('?') && !e.contains('.'),
{
    let path = before(uri, '?');
    let segment = last_segment(uri);
    lemma_before_is_free(uri, '?');
    lemma_after_last_is_free(path, '/');
    lemma_after_last_is_part(path, '/');
    lemma_before_last_is_part(segment, '.');
    let tail = after_last(uri, '/');
    let end = tail_of(uri);
    lemma_after_last_is_free(uri, '/');
    lemma_before_is_free(tail, '?');
    lemma_before_is_part(tail, '?');
    lemma_after_last_is_free(end, '.');
    lemma_after_last_is_part(end, '.');
    let ext = after_last(end, '.');
    assert forall|i: int| 0 <= i < lower(ext).len() implies lower(ext)[i] != '/' && lower(ext)[i]
        != '?' && lower(ext)[i] != '.' by {
        assert(ext.contains(ext[i]));
        assert(ext[i] != '/' && ext[i] != '?' && ext[i] != '.');
    }
}

/// A playlist served over HTTP is opened as one, whatever the case of its letters and
/// whatever query or fragment stands behind it.
pub proof fn law_http_playlists_are_recognised(
    scheme: Seq<char>,
    rest: Seq<char>,
    ext: Seq<char>,
    query: Seq<char>,
)
    requires
        lower(scheme) == "http://"@ || lower(scheme) == "https://"@,
        lower(ext) == ".m3u8"@,
        !rest.contains('?'),
        !rest.contains('#'),
        query.len() == 0 || query[0] == '?' || query[0] == '#' && !query.contains('?'),
    ensures
        playback_input(scheme + rest + ext + query) == "hls+"@ + (scheme + rest + ext + query),
{
    let path = scheme + rest + ext;
    let l = lower(path + query);
    let low = lower(path);
    reveal_strlit("http://");
    reveal_strlit("https://");
    reveal_strlit(".m3u8");
    assert(l =~= low + lower(query));
    assert(low =~= lower(scheme) + lower(rest) + lower(ext));
    assert forall|i: int| 0 <= i < low.len() implies low[i] != '?' && low[i] != '#' by {
        if scheme.len() <= i < scheme.len() + rest.len() {
            assert(rest.contains(rest[i - scheme.len()]));
            assert(low[i] == lower(rest)[i - scheme.len()]);
        } else if i < scheme.len() {
            assert(low[i] == lower(scheme)[i]);
        } else {
            assert(low[i] == lower(ext)[i - scheme.len() - rest.len()]);
        }
    }
    assert(!low.contains('?'));
    assert(!low.contains('#'));
    let tail = lower(query);
    if query.len() == 0 || query[0] == '?' {
        lemma_before_stops(low, tail, '?');
        lemma_before_stops(low, Seq::empty(), '#');
        assert(low + Seq::<char>::empty() =~= low);
    } else {
        assert forall|i: int| 0 <= i < l.len() implies l[i] != '?' by {
            if i >= low.len() {
                assert(query.contains(query[i - low.len()]));
                assert(l[i] == tail[i - low.len()]);
            } else {
                assert(l[i] == low[i]);
            }
        }
        assert(!l.contains('?'));
        lemma_before_stops(l, Seq::empty(), '?');
        assert(l + Seq::<char>::empty() =~= l);
        lemma_before_stops(low, tail, '#');
    }
    assert(".m3u8"@ =~= low.subrange(low.len() - 5, low.len() as int));
    assert(lower(scheme) =~= l.subrange(0, scheme.len() as int));
}

/// What is not served over HTTP, or is no playlist by its path, is opened as it stands.
pub proof fn law_other_inputs_stand_as_they_are(input: Seq<char>)
    requires
        !"http://"@.is_prefix_of(lower(input)) && !"https://"@.is_prefix_of(lower(input))
            || !".m3u8"@.is_suffix_of(before(before(lower(input), '?'), '#')),
    ensures
        playback_input(input) == input,
{
}

/// The title is the file's name without its extension, and the extension is what stands
/// behind the name's last dot, in lower case; neither the path before it nor a query behind
/// it counts.
pub proof fn law_a_file_name_is_title_and_extension(
    dir: Seq<char>,
    name: Seq<char>,
    ext: Seq<char>,
    query: Seq<char>,
)
    requires
        !dir.contains('?'),
        dir.len() == 0 || dir.last() == '/',
        name.len() > 0,
        !name.contains('/'),
        !name.contains('?'),
        !ext.contains('/'),
        !ext.contains('?'),
        !ext.contains('.'),
        query.len() == 0 || query[0] == '?',
        !query.contains('/'),
    ensures
        uri_stem(dir + name.push('.') + ext + query) == Some(name),
        uri_ext(dir + name.push('.') + ext + query) == Some(lower(ext)),
{
    let file = name.push('.') + ext;
    let path = dir + file;
    assert(dir + name.push('.') + ext =~= path);
    assert forall|i: int| 0 <= i < file.len() implies file[i] != '/' && file[i] != '?' by {
        if i < name.len() {
            assert(name.contains(name[i]));
        } else if i > name.len() {
            assert(ext.contains(ext[i - name.len() - 1]));
        }
    }
    assert forall|i: int| 0 <= i < path.len() implies path[i] != '?' by {
        if i < dir.len() {
            assert(dir.contains(dir[i]));
        } else {
            assert(path[i] == file[i - dir.len()]);
        }
    }
    law_title_and_extension_share_a_segment(path, query);
    lemma_after_last_keeps(dir, file, '/');
    assert(after_last(dir, '/') + file =~= file);
    assert(after_last(path, '/') == file);
    lemma_after_last_keeps(name.push('.'), ext, '.');
    assert(Seq::<char>::empty() + ext =~= ext);
    assert(after_last(file, '.') == ext);
    assert(file[name.len() as int] == '.');
    lemma_before_last_finds(file, '.');
    law_cutting_at_the_last_mark_parts_the_text(file, '.');
    let head = before_last(file, '.')->0;
    assert(head.push('.') + ext == name.push('.') + ext);
    assert(head =~= name) by {
        assert(head.len() == name.len());
        assert forall|i: int| 0 <= i < name.len() implies head[i] == name[i] by {
            assert((head.push('.') + ext)[i] == head[i]);
            assert((name.push('.') + ext)[i] == name[i]);
        }
    }
}

/// A file name without a dot is the title as a whole, and has no extension.
pub proof fn law_a_name_without_a_dot_is_a_title(dir: Seq<char>, name: Seq<char>, query: Seq<char>)
    requires
        !dir.contains('?'),
        dir.len() == 0 || dir.last() == '/',
        !name.contains('/'),
        !name.contains('?'),
        !name.contains('.'),
        query.len() == 0 || query[0] == '?',
        !query.contains('/'),
    ensures
        name.len() > 0 ==> uri_stem(dir + name + query) == Some(name),
        name.len() == 0 ==> uri_stem(dir + name + query) is None,
        uri_ext(dir + name + query) is None,
{
    let path = dir + name;
    assert forall|i: int| 0 <= i < path.len() implies path[i] != '?' by {
        if i < dir.len() {
            assert(dir.contains(dir[i]));
        } else {
            assert(name.contains(name[i - dir.len()]));
        }
    }
    law_title_and_extension_share_a_segment(path, query);
    lemma_after_last_keeps(dir, name, '/');
    assert(after_last(dir, '/') + name =~= name);
    lemma_before_last_finds(name, '.');
}

/// The extension is that of what stands behind the last slash, wherever that slash is; the
/// title is that of the path, whatever stands in the query.
pub proof fn law_what_title_and_extension_depend_on(
    head: Seq<char>,
    tail: Seq<char>,
    path: Seq<char>,
    query: Seq<char>,
)
    requires
        !tail.contains('/'),
        !path.contains('?'),
        query.len() == 0 || query[0] == '?',
    ensures
        uri_ext(head.push('/') + tail) == uri_ext(tail),
        uri_stem(path + query) == uri_stem(path),
{
    lemma_after_last_keeps(head.push('/'), tail, '/');
    assert(Seq::<char>::empty() + tail =~= tail);
    lemma_after_last_keeps(Seq::empty(), tail, '/');
    lemma_before_stops(path, query, '?');
    lemma_before_stops(path, Seq::empty(), '?');
    assert(path + Seq::<char>::empty() =~= path);
}

/// Where the query holds no path separator, title and extension are read off one and the
/// same segment: the last of the path.
pub proof fn law_title_and_extension_share_a_segment(path: Seq<char>, query: Seq<char>)
    requires
        !path.contains('?'),
        query.len() == 0 || query[0] == '?',
        !query.contains('/'),
    ensures
        last_segment(path + query) == after_last(path, '/'),
        tail_of(path + query) == after_last(path, '/'),
{
    lemma_before_stops(path, query, '?');
    lemma_after_last_keeps(path, query, '/');
    lemma_after_last_is_part(path, '/');
    lemma_before_stops(after_last(path, '/'), query, '?');
}

proof fn lemma_before_stops(s: Seq<char>, rest: Seq<char>, stop: char)
    requires
        !s.contains(stop),
        rest.len() == 0 || rest[0] == stop,
    ensures
        before(s + rest, stop) == s,
    decreases s.len(),
{
    if s.len() > 0 {
        let tail = s.drop_first();
        assert(s.contains(s[0]));
        assert forall|i: int| 0 <= i < tail.len() implies tail[i] != stop by {
            assert(s.contains(s[i + 1]));
        }
        assert((s + rest).drop_first() =~= tail + rest);
        lemma_before_stops(tail, rest, stop);
        assert(before(s + rest, stop) =~= s);
    } else {
        assert(s + rest =~= rest);
        assert(before(rest, stop) =~= s);
    }
}

proof fn lemma_after_last_keeps(s: Seq<char>, rest: Seq<char>, mark: char)
    requires
        !rest.contains(mark),
    ensures
        after_last(s + rest, mark) == after_last(s, mark) + rest,
    decreases rest.len(),
{
    if rest.len() > 0 {
        let front = rest.drop_last();
        assert(rest.contains(rest.last()));
        assert forall|i: int| 0 <= i < front.len() implies front[i] != mark by {
            assert(rest.contains(rest[i]));
        }
        assert((s + rest).drop_last() =~= s + front);
        lemma_after_last_keeps(s, front, mark);
        assert(after_last(s + rest, mark) =~= after_last(s, mark) + rest);
    } else {
        assert(s + rest =~= s);
        assert(after_last(s, mark) =~= after_last(s, mark) + rest);
    }
}

proof fn lemma_after_last_is_free(s: Seq<char>, mark: char)
    ensures
        !after_last(s, mark).contains(mark),
    decreases s.len(),
{
    if s.len() > 0 && s.last() != mark {
        lemma_after_last_is_free(s.drop_last(), mark);
        let head = after_last(s.drop_last(), mark);
        assert forall|i: int| 0 <= i < head.push(s.last()).len() implies head.push(s.last())[i]
            != mark by {
            if i < head.len() {
                assert(head.contains(head[i]));
            }
        }
    }
}

proof fn lemma_before_is_free(s: Seq<char>, stop: char)
    ensures
        !before(s, stop).contains(stop),
    decreases s.len(),
{
    if s.len() > 0 && s[0] != stop {
        let rest = before(s.drop_first(), stop);
        lemma_before_is_free(s.drop_first(), stop);
        assert forall|i: int| 0 <= i < before(s, stop).len() implies before(s, stop)[i] != stop by {
            if i > 0 {
                assert(rest.contains(rest[i - 1]));
            }
        }
    }
}

proof fn lemma_before_is_part(s: Seq<char>, stop: char)
    ensures
        forall|c: char| #[trigger] before(s, stop).contains(c) ==> s.contains(c),
    decreases s.len(),
{
    if s.len() > 0 && s[0] != stop {
        let rest = before(s.drop_first(), stop);
        lemma_before_is_part(s.drop_first(), stop);
        assert forall|c: char| #[trigger] before(s, stop).contains(c) implies s.contains(c) by {
            let i = choose|i: int| 0 <= i < before(s, stop).len() && before(s, stop)[i] == c;
            if i == 0 {
                assert(s[0] == c);
            } else {
                assert(rest[i - 1] == c);
                assert(rest.contains(c));
                let j = choose|j: int| 0 <= j < s.drop_first().len() && s.drop_first()[j] == c;
                assert(s[j + 1] == c);
            }
        }
    }
}

proof fn lemma_before_last_is_part(s: Seq<char>, mark: char)
    ensures
        before_last(s, mark) matches Some(p) ==> forall|c: char| p.contains(c) ==> s.contains(c),
    decreases s.len(),
{
    if s.len() > 0 {
        lemma_before_last_is_part(s.drop_last(), mark);
        assert forall|c: char| s.drop_last().contains(c) implies s.contains(c) by {
            let i = choose|i: int| 0 <= i < s.drop_last().len() && s.drop_last()[i] == c;
            assert(s[i] == c);
        }
    }
}

proof fn lemma_after_last_is_part(s: Seq<char>, mark: char)
    ensures
        forall|c: char| #[trigger] after_last(s, mark).contains(c) ==> s.contains(c),
    decreases s.len(),
{
    if s.len() > 0 && s.last() != mark {
        let head = after_last(s.drop_last(), mark);
        lemma_after_last_is_part(s.drop_last(), mark);
        assert forall|c: char| #[trigger] after_last(s, mark).contains(c) implies s.contains(c) by {
            let i = choose|i: int|
                0 <= i < after_last(s, mark).len() && after_last(s, mark)[i] == c;
            if i == head.len() {
                assert(s[s.len() - 1] == c);
            } else {
                assert(head[i] == c);
                assert(head.contains(c));
                let j = choose|j: int| 0 <= j < s.drop_last().len() && s.drop_last()[j] == c;
                assert(s[j] == c);
            }
        }
    }
}

} // verus!
