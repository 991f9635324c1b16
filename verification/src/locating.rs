//! Where requests go and how: the addresses a client is made with and makes, the
//! settings it is built with, and how the default printer is found.

use vstd::prelude::*;
use ipp::prelude::Uri;
use crate::client::{
    built, client_of, confidential, exposed, plain_builder, printer_address, queue_path,
    queue_uri, without_slashes, IppClientBuilderView, IppClientView,
};
use crate::default_printer::{answer_of, begun, chosen, Remembered, ResolutionView};
use crate::error::{Error, ErrorView};
use crate::lpoptions::{
    default_in, default_of, destination, first_word, is_white_space, last_destination, lines_from,
    run_end,
};
use crate::text::{begins_with, position_from};
use crate::transport::{plain_settings, uri_host, uri_scheme};
use crate::wire::{uri_parsed, uri_refusal};

verus! {

/// A queue is addressed by the client's URI, `/printers/` and the queue's name,
/// one after the other.
pub proof fn a_queue_is_addressed_by_its_path(base: Seq<char>, name: Seq<char>)
    ensures
        queue_path(base, name) == base + "/printers/"@ + name,
        match uri_parsed(base + "/printers/"@ + name) {
            Some(uri) => queue_uri(base, name) == Ok::<Uri, ErrorView>(uri),
            None => queue_uri(base, name) == Err::<Uri, ErrorView>(
                ErrorView::Transport {
                    message: "bad printer uri for "@ + name + ": "@ + uri_refusal(
                        base + "/printers/"@ + name,
                    ),
                    source: Seq::empty(),
                },
            ),
        },
{
}

/// A printer's URI is taken as it is, and refused by name where it is none.
pub proof fn a_printer_is_addressed_by_its_uri(uri: Seq<char>)
    ensures
        match uri_parsed(uri) {
            Some(parsed) => printer_address(uri) == Ok::<Uri, ErrorView>(parsed),
            None => printer_address(uri) == Err::<Uri, ErrorView>(
                ErrorView::Transport {
                    message: "bad printer uri "@ + uri + ": "@ + uri_refusal(uri),
                    source: Seq::empty(),
                },
            ),
        },
{
}

/// What is left of a URI without the slashes at its end is the URI up to them:
/// it ends in no slash, and nothing but slashes follows it.
pub proof fn only_slashes_are_taken_off(uri: Seq<char>)
    ensures
        ({
            let base = without_slashes(uri);
            &&& base.len() <= uri.len()
            &&& uri.take(base.len() as int) == base
            &&& forall|i: int| base.len() <= i < uri.len() ==> uri[i] == '/'
            &&& base.len() > 0 ==> base.last() != '/'
        }),
    decreases uri.len(),
{
    if uri.len() > 0 && uri.last() == '/' {
        let rest = uri.drop_last();
        only_slashes_are_taken_off(rest);
        let base = without_slashes(uri);
        assert(uri.take(base.len() as int) =~= rest.take(base.len() as int));
        assert forall|i: int| base.len() <= i < uri.len() implies uri[i] == '/' by {
            if i < rest.len() {
                assert(rest[i] == uri[i]);
            }
        }
    } else {
        assert(uri.take(uri.len() as int) =~= uri);
    }
}

/// A client is made for the user that was named, points at the URI without the
/// slashes at its end, and sends its requests there with no bound on time, no
/// credentials and the usual trust. A URI that is none is refused.
pub proof fn a_client_is_made_with_nothing_set(uri: Seq<char>, user: Seq<char>)
    ensures
        match uri_parsed(uri) {
            Some(parsed) => client_of(uri, user) matches Ok(client) && {
                &&& client.base == without_slashes(uri)
                &&& client.user == user
                &&& client.settings.uri == parsed
                &&& client.settings.timeout is None
                &&& client.settings.credentials is None
                &&& client.settings.certificates.len() == 0
                &&& !client.settings.accept_invalid
            },
            None => client_of(uri, user) == Err::<IppClientView, ErrorView>(
                ErrorView::Transport {
                    message: "bad CUPS uri "@ + uri + ": "@ + uri_refusal(uri),
                    source: Seq::empty(),
                },
            ),
        },
{
}

/// A client is built for the user that was set, or for the fallback where none
/// was, and sends its requests as the builder was set, each setting for itself:
/// the bound on time, the user and the password with a colon between them, the
/// certificates, and whether any certificate will do.
pub proof fn a_client_is_built_as_it_was_set(builder: IppClientBuilderView, fallback: Seq<char>)
    ensures
        match uri_parsed(builder.uri) {
            Some(parsed) => built(builder, fallback) matches Ok(client) && {
                &&& client.base == without_slashes(builder.uri)
                &&& builder.user matches Some(user) ==> client.user == user
                &&& builder.user is None ==> client.user == fallback
                &&& client.settings.uri == parsed
                &&& client.settings.timeout == builder.request_timeout
                &&& builder.basic_auth matches Some((user, password))
                    ==> client.settings.credentials == Some(user + seq![':'] + password)
                &&& builder.basic_auth is None ==> client.settings.credentials is None
                &&& client.settings.certificates == builder.ca_certs
                &&& client.settings.accept_invalid == builder.accept_invalid_certs
            },
            None => built(builder, fallback) == Err::<IppClientView, ErrorView>(
                ErrorView::Transport {
                    message: "bad uri "@ + builder.uri + ": "@ + uri_refusal(builder.uri),
                    source: Seq::empty(),
                },
            ),
        },
{
}

/// A builder starts with a URI and nothing else, so that what it builds is the
/// client that would be made at once for that URI and the fallback user.
pub proof fn a_plain_builder_builds_a_plain_client(uri: Seq<char>, fallback: Seq<char>)
    ensures
        plain_builder(uri).uri == uri,
        plain_builder(uri).user is None,
        plain_builder(uri).basic_auth is None,
        plain_builder(uri).request_timeout is None,
        plain_builder(uri).ca_certs.len() == 0,
        !plain_builder(uri).accept_invalid_certs,
        uri_parsed(uri) is Some ==> built(plain_builder(uri), fallback) == client_of(uri, fallback),
{
}

/// What is sent is protected exactly where the scheme is `https` or `ipps`, or
/// the host is this machine by one of its four names.
pub proof fn only_encryption_and_this_machine_are_confidential(uri: Uri)
    ensures
        confidential(uri) <==> {
            ||| uri_scheme(uri) == Some("https"@)
            ||| uri_scheme(uri) == Some("ipps"@)
            ||| uri_host(uri) == Some("localhost"@)
            ||| uri_host(uri) == Some("127.0.0.1"@)
            ||| uri_host(uri) == Some("::1"@)
            ||| uri_host(uri) == Some("[::1]"@)
        },
{
}

/// Credentials are exposed exactly where there are any, they would be sent
/// somewhere, and it is not confidential there.
pub proof fn only_credentials_in_the_clear_are_exposed(builder: IppClientBuilderView)
    ensures
        builder.basic_auth is None ==> !exposed(builder),
        uri_parsed(builder.uri) is None ==> !exposed(builder),
        builder.basic_auth is Some ==> (uri_parsed(builder.uri) matches Some(uri) ==> (exposed(
            builder,
        ) <==> !confidential(uri))),
{
}

/// Requests go out with nothing set but where to.
pub proof fn plain_settings_are_plain(uri: Uri)
    ensures
        plain_settings(uri).uri == uri,
        plain_settings(uri).timeout is None,
        plain_settings(uri).credentials is None,
        plain_settings(uri).certificates.len() == 0,
        !plain_settings(uri).accept_invalid,
{
}

/// What is remembered settles the search, also where it is that there is no
/// default; where nothing is remembered the user's options are read.
pub proof fn a_search_begins_with_what_is_remembered(memory: Remembered, name: Option<Seq<char>>)
    ensures
        memory == Some(name) ==> begun(memory) == ResolutionView::Settled(name),
        memory is None ==> begun(memory) == ResolutionView::ReadOptions,
{
}

/// A choice of the user's settles the search and is remembered; where there is
/// none the server is asked, and nothing is remembered yet.
pub proof fn a_search_goes_on_to_the_server_without_a_choice(
    memory: Remembered,
    name: Seq<char>,
)
    ensures
        chosen(memory, Some(name)) == (Some(Some(name)), ResolutionView::Settled(Some(name))),
        chosen(memory, None) == (memory, ResolutionView::AskServer),
{
}

/// What a server answers is the default it names; one that names none, or could
/// not be asked, leaves none.
pub proof fn a_server_answers_with_its_default(name: String, e: Error)
    ensures
        answer_of(Ok(Some(name))) == Some(name@),
        answer_of(Ok(None)) is None,
        answer_of(Err(e)) is None,
{
}

/// The characters that separate words: those Unicode counts as white space.
pub proof fn white_space_is_what_unicode_counts_as_such(c: char)
    ensures
        is_white_space(c) <==> {
            ||| c == ' '
            ||| '\t' <= c <= '\r'
            ||| c == '\u{85}'
            ||| c == '\u{a0}'
            ||| c == '\u{1680}'
            ||| '\u{2000}' <= c <= '\u{200a}'
            ||| c == '\u{2028}'
            ||| c == '\u{2029}'
            ||| c == '\u{202f}'
            ||| c == '\u{205f}'
            ||| c == '\u{3000}'
        },
{
}

/// A run ends at the first character that is not of its kind, or with the text.
proof fn lemma_run_end(s: Seq<char>, white: bool, from: int)
    requires
        0 <= from <= s.len(),
    ensures
        from <= run_end(s, white, from) <= s.len(),
        forall|i: int|
            from <= i < run_end(s, white, from) ==> is_white_space(#[trigger] s[i]) == white,
        run_end(s, white, from) < s.len() ==> is_white_space(s[run_end(s, white, from)]) != white,
    decreases s.len() - from,
{
    if from < s.len() && is_white_space(s[from]) == white {
        lemma_run_end(s, white, from + 1);
    }
}

/// All characters of a text are white space.
pub open spec fn is_blank(s: Seq<char>) -> bool {
    forall|i: int| 0 <= i < s.len() ==> is_white_space(#[trigger] s[i])
}

/// A text is one word without a slash.
pub open spec fn is_name(s: Seq<char>) -> bool {
    &&& s.len() > 0
    &&& forall|i: int| 0 <= i < s.len() ==> !is_white_space(#[trigger] s[i]) && s[i] != '/'
}

/// A name ends before `rest`: it is empty, or begins with a slash or white space.
pub open spec fn ends_a_name(rest: Seq<char>) -> bool {
    rest.len() > 0 ==> rest[0] == '/' || is_white_space(rest[0])
}

/// A line names a default exactly where it is `Default`, a space, any more white
/// space and a name, which the end of the line, white space or a slash ends; and
/// it is that name.
pub proof fn a_line_names_the_word_after_default(
    line: Seq<char>,
    blank: Seq<char>,
    name: Seq<char>,
    rest: Seq<char>,
)
    ensures
        is_blank(blank) && is_name(name) && ends_a_name(rest) ==> destination(
            "Default "@ + blank + name + rest,
        ) == Some(name),
        destination(line) matches Some(found) ==> is_name(found) && exists|
            blank: Seq<char>,
            rest: Seq<char>,
        |
            is_blank(blank) && ends_a_name(rest) && line == #[trigger] ("Default "@ + blank + found
                + rest),
{
    reveal_strlit("Default ");
    let prefix = "Default "@;
    if is_blank(blank) && is_name(name) && ends_a_name(rest) {
        let made = prefix + blank + name + rest;
        let tail = made.skip(8);
        assert(made.subrange(0, 8) =~= prefix);
        assert(tail =~= blank + name + rest);
        lemma_run_end(tail, true, 0);
        let start = run_end(tail, true, 0);
        let b = blank.len() as int;
        assert(tail[b] == name[0]);
        if start < b {
            assert(tail[start] == blank[start]);
        }
        assert(start == b);
        lemma_run_end(tail, false, start);
        let end = run_end(tail, false, start);
        let n = name.len() as int;
        if end < b + n {
            assert(tail[end] == name[end - b]);
        }
        let word = first_word(tail);
        assert(word =~= tail.subrange(start, end));
        crate::text::lemma_position_from(word, '/', 0);
        let slash = position_from(word, '/', 0);
        assert forall|i: int| 0 <= i < n implies #[trigger] word[i] == name[i] by {
            assert(tail[b + i] == name[i]);
        }
        if slash < n {
            assert(word[slash] == name[slash]);
        }
        if slash > n {
            assert(word[n] == tail[b + n]);
            assert(tail[b + n] == rest[0]);
            assert(!is_white_space(tail[b + n]));
        }
        assert(word.take(slash) =~= name);
    }
    if let Some(found) = destination(line) {
        let tail = line.skip(8);
        lemma_run_end(tail, true, 0);
        let start = run_end(tail, true, 0);
        lemma_run_end(tail, false, start);
        let end = run_end(tail, false, start);
        let word = first_word(tail);
        crate::text::lemma_position_from(word, '/', 0);
        let slash = position_from(word, '/', 0);
        let blank = tail.take(start);
        let rest = tail.skip(start + slash);
        assert forall|i: int| 0 <= i < found.len() implies !is_white_space(#[trigger] found[i])
            && found[i] != '/' by {
            assert(found[i] == word[i]);
            assert(word[i] == tail[start + i]);
        }
        if rest.len() > 0 {
            assert(rest[0] == tail[start + slash]);
            if slash < word.len() {
                assert(word[slash] == tail[start + slash]);
            }
        }
        assert forall|i: int| 0 <= i < 8 implies line[i] == #[trigger] prefix[i] by {
            assert(line.subrange(0, 8)[i] == prefix[i]);
        }
        assert(tail =~= blank + found + rest);
        assert(line =~= prefix + blank + found + rest);
        assert(is_blank(blank));
        assert(ends_a_name(rest));
    }
}

/// The lines of a text that stands behind another are the same, shifted.
proof fn lemma_shifted(head: Seq<char>, s: Seq<char>, from: int)
    requires
        0 <= from <= s.len(),
    ensures
        position_from(head + s, '\n', head.len() + from) == head.len() + position_from(
            s,
            '\n',
            from,
        ),
    decreases s.len() - from,
{
    if from < s.len() {
        assert((head + s)[head.len() + from] == s[from]);
        if s[from] != '\n' {
            lemma_shifted(head, s, from + 1);
        }
    }
}

proof fn lemma_lines_shifted(head: Seq<char>, s: Seq<char>, from: int)
    requires
        0 <= from <= s.len(),
    ensures
        lines_from(head + s, head.len() + from) == lines_from(s, from),
    decreases s.len() - from,
{
    let all = head + s;
    let h = head.len() as int;
    if from < s.len() {
        lemma_shifted(head, s, from);
        crate::text::lemma_position_from(s, '\n', from);
        let end = position_from(s, '\n', from);
        if from < end < s.len() {
            assert(all[h + end - 1] == s[end - 1]);
            assert(all.subrange(h + from, h + end - 1) =~= s.subrange(from, end - 1));
        }
        assert(all.subrange(h + from, h + end) =~= s.subrange(from, end));
        if end < s.len() {
            lemma_lines_shifted(head, s, end + 1);
        }
    }
}

/// A text of a line, a newline and more has that line and then the lines of the
/// rest; a carriage return before the newline is no part of the line. A text
/// without a newline is one line, and an empty one none.
pub proof fn lines_end_at_newlines(line: Seq<char>, rest: Seq<char>)
    requires
        !line.contains('\n'),
    ensures
        line.len() == 0 || line.last() != '\r' ==> lines_from(line + seq!['\n'] + rest, 0) == seq![
            line,
        ] + lines_from(rest, 0),
        lines_from(line + seq!['\r', '\n'] + rest, 0) == seq![line] + lines_from(rest, 0),
        line.len() > 0 ==> lines_from(line, 0) == seq![line],
        lines_from(Seq::empty(), 0) == Seq::<Seq<char>>::empty(),
{
    let n = line.len() as int;
    assert forall|i: int| 0 <= i < n implies line[i] != '\n' by {
        assert(line.contains(line[i]));
    }
    let ended = line + seq!['\n'];
    let all = ended + rest;
    crate::text::lemma_position_from(all, '\n', 0);
    let end = position_from(all, '\n', 0);
    assert(all[n] == '\n');
    if end < n {
        assert(all[end] == line[end]);
    }
    assert(end == n);
    lemma_lines_shifted(ended, rest, 0);
    if n > 0 {
        assert(all[n - 1] == line.last());
    }
    if n == 0 || line.last() != '\r' {
        assert(all.subrange(0, n) =~= line);
        assert(lines_from(all, 0) == seq![line] + lines_from(rest, 0));
    }
    let returned = line + seq!['\r', '\n'];
    let whole = returned + rest;
    crate::text::lemma_position_from(whole, '\n', 0);
    let stop = position_from(whole, '\n', 0);
    assert(whole[n + 1] == '\n');
    assert(whole[n] == '\r');
    if stop < n {
        assert(whole[stop] == line[stop]);
    }
    assert(stop == n + 1);
    lemma_lines_shifted(returned, rest, 0);
    assert(whole.subrange(0, n) =~= line);
    assert(lines_from(whole, 0) == seq![line] + lines_from(rest, 0));
    if n > 0 {
        crate::text::lemma_position_from(line, '\n', 0);
        assert(line.subrange(0, n) =~= line);
    }
}

/// A file's default is what the last of its lines to name one names: a line in
/// front counts only where no line behind it names any. A file without lines
/// names none, and neither does one that could not be read.
pub proof fn a_files_default_is_its_last(
    line: Seq<char>,
    rest: Seq<Seq<char>>,
    contents: Seq<char>,
    text: &str,
)
    ensures
        last_destination(rest) matches Some(name) ==> last_destination(seq![line] + rest) == Some(
            name,
        ),
        last_destination(rest) is None ==> last_destination(seq![line] + rest) == destination(line),
        last_destination(Seq::empty()) is None,
        default_of(contents) == last_destination(lines_from(contents, 0)),
        default_in(Some(text)) == default_of(text@),
        default_in(None) is None,
{
    assert((seq![line] + rest).drop_first() =~= rest);
}

/// A line that does not begin with `Default` and a space names none.
pub proof fn other_lines_name_nothing(line: Seq<char>)
    ensures
        !begins_with(line, "Default "@) ==> destination(line) is None,
{
}

} // verus!
