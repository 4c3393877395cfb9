//! Shared request plumbing for the cloud transcription engines.

use vstd::prelude::*;
use crate::text::{
    chars_of, decimal, digits_value, is_ascii_digit, unsigned_digits, last_index_of, lemma_decimal_digits,
    lemma_decimal_injective, parse_u16, parse_u16_spec, push_decimal, str_eq, trim_end_index,
    trim_end_line_breaks, trim_end_ws, trim_indices, trim_start_ws, trim_ws,
};

verus! {

/// Seconds curl may spend establishing a connection.
pub const CONNECT_TIMEOUT_SECS: u64 = 5;

/// Seconds curl may spend on a whole request.
pub const REQUEST_TIMEOUT_SECS: u64 = 45;

/// How many times one transcription request is tried.
pub const MAX_ATTEMPTS: usize = 2;

/// The `language` value sent for a selected language, or `None` for auto-detect.
pub open spec fn spec_normalize_language(selected: Seq<char>) -> Option<Seq<char>> {
    if selected == ""@ || selected == "auto"@ {
        None
    } else if selected == "zh-Hans"@ || selected == "zh-Hant"@ {
        Some("zh"@)
    } else {
        Some(selected)
    }
}

/// Map Handy's selected language to an API `language` parameter.
///
/// Returns `None` when no language should be sent (auto-detect). `auto` is
/// never forwarded; `zh-Hans`/`zh-Hant` collapse to `zh`.
pub fn normalize_language(selected: &str) -> (r: Option<String>)
    ensures
        match r {
            None => spec_normalize_language(selected@) is None,
            Some(lang) => spec_normalize_language(selected@) == Some(lang@),
        },
{
    if str_eq(selected, "") || str_eq(selected, "auto") {
        None
    } else if str_eq(selected, "zh-Hans") || str_eq(selected, "zh-Hant") {
        Some("zh".to_owned())
    } else {
        Some(selected.to_owned())
    }
}

/// The (body, status code) pair that curl's combined output splits into.
pub open spec fn spec_split_response(stdout: Seq<char>) -> (Seq<char>, Seq<char>) {
    let trimmed = trim_end_line_breaks(stdout);
    match last_index_of(trimmed, '\n') {
        Some(idx) => (
            trim_end_ws(trimmed.subrange(0, idx)),
            trim_ws(trimmed.subrange(idx + 1, trimmed.len() as int)),
        ),
        None => (Seq::empty(), trim_ws(trimmed)),
    }
}

/// `auto` and the empty selection are never forwarded, and a normalized
/// language normalizes to itself.
pub proof fn law_normalize_language(selected: Seq<char>)
    ensures
        spec_normalize_language(selected) != Some("auto"@),
        spec_normalize_language(selected) != Some(Seq::<char>::empty()),
        spec_normalize_language(selected) matches Some(lang) ==> spec_normalize_language(lang)
            == Some(lang),
{
    reveal_strlit("");
    reveal_strlit("auto");
    reveal_strlit("zh");
    reveal_strlit("zh-Hans");
    reveal_strlit("zh-Hant");
    assert("zh"@.len() == 2);
    assert(""@ =~= Seq::<char>::empty());
    assert("auto"@ != "zh"@);
}

/// Only `zh-Hans` and `zh-Hant` are rewritten, to `zh`; the empty selection and
/// `auto` send no language; every other selection is sent exactly as chosen.
pub proof fn law_other_languages_pass_through(selected: Seq<char>)
    ensures
        spec_normalize_language(selected) is None <==> (selected == ""@ || selected == "auto"@),
        selected == "zh-Hans"@ ==> spec_normalize_language(selected) == Some("zh"@),
        selected == "zh-Hant"@ ==> spec_normalize_language(selected) == Some("zh"@),
        selected != ""@ && selected != "auto"@ && selected != "zh-Hans"@ && selected != "zh-Hant"@
            ==> spec_normalize_language(selected) == Some(selected),
{
    reveal_strlit("");
    reveal_strlit("auto");
    reveal_strlit("zh-Hans");
    reveal_strlit("zh-Hant");
    assert("zh-Hans"@.len() == 7 && "zh-Hant"@.len() == 7);
    assert("auto"@.len() == 4 && ""@.len() == 0);
}

/// Characters after the last `c` do not move it.
proof fn lemma_last_index_of_suffix(p: Seq<char>, q: Seq<char>, c: char)
    requires
        forall|i: int| 0 <= i < q.len() ==> q[i] != c,
    ensures
        last_index_of(p + q, c) == last_index_of(p, c),
    decreases q.len(),
{
    if q.len() > 0 {
        assert((p + q).drop_last() =~= p + q.drop_last());
        lemma_last_index_of_suffix(p, q.drop_last(), c);
    } else {
        assert(p + q =~= p);
    }
}

/// The status curl appends after a line feed is split off as the code, and
/// what precedes it is the body: for any body and any status made of digits,
/// `split_response` of `body + "\n" + status` is the body without trailing
/// white space and the status.
pub proof fn law_status_is_final_line(body: Seq<char>, status: Seq<char>)
    requires
        status.len() > 0,
        forall|i: int| 0 <= i < status.len() ==> is_ascii_digit(#[trigger] status[i]),
    ensures
        spec_split_response(body + seq!['\n'] + status) == (trim_end_ws(body), status),
{
    let s = body + seq!['\n'] + status;
    assert(is_ascii_digit(status[status.len() - 1]));
    assert(s.last() == status.last());
    assert(trim_end_line_breaks(s) == s);
    assert forall|i: int| 0 <= i < status.len() implies status[i] != '\n' by {
        assert(is_ascii_digit(status[i]));
    }
    lemma_last_index_of_suffix(body + seq!['\n'], status, '\n');
    assert((body + seq!['\n']).last() == '\n');
    assert(last_index_of(s, '\n') == Some(body.len() as int));
    assert(s.subrange(0, body.len() as int) =~= body);
    assert(s.subrange(body.len() as int + 1, s.len() as int) =~= status);
    assert(is_ascii_digit(status[0]));
    assert(trim_end_ws(status) == status);
    assert(trim_start_ws(status) == status);
}

/// Split curl's combined output into (body, status_code). The config sets
/// `write-out = "\n%{http_code}"`, so the status is the final line.
pub fn split_response(stdout: &str) -> (r: (&str, &str))
    ensures
        (r.0@, r.1@) == spec_split_response(stdout@),
{
    let cs = chars_of(stdout);
    let n = cs.len();
    let mut hi = n;
    assert(cs@.subrange(0, n as int) =~= cs@);
    while hi > 0 && (cs[hi - 1] == '\r' || cs[hi - 1] == '\n')
        invariant
            hi <= n == cs@.len(),
            trim_end_line_breaks(cs@) == trim_end_line_breaks(cs@.subrange(0, hi as int)),
        decreases hi,
    {
        assert(cs@.subrange(0, hi as int).drop_last() =~= cs@.subrange(0, hi - 1));
        hi = hi - 1;
    }
    assert(cs@.subrange(0, n as int) =~= cs@);
    let ghost trimmed = cs@.subrange(0, hi as int);
    assert(trim_end_line_breaks(cs@) == trimmed);
    let mut k = hi;
    while k > 0 && cs[k - 1] != '\n'
        invariant
            k <= hi <= n == cs@.len(),
            trimmed == cs@.subrange(0, hi as int),
            last_index_of(trimmed, '\n') == last_index_of(cs@.subrange(0, k as int), '\n'),
        decreases k,
    {
        assert(cs@.subrange(0, k as int).drop_last() =~= cs@.subrange(0, k - 1));
        k = k - 1;
    }
    if k == 0 {
        let (b, e) = trim_indices(&cs, 0, hi);
        let code = stdout.substring_char(b, e);
        let body = stdout.substring_char(0, 0);
        assert(body@ =~= Seq::<char>::empty());
        (body, code)
    } else {
        let idx = k - 1;
        assert(last_index_of(trimmed, '\n') == Some(idx as int));
        assert(trimmed.subrange(0, idx as int) =~= cs@.subrange(0, idx as int));
        assert(trimmed.subrange(idx + 1, trimmed.len() as int) =~= cs@.subrange(
            idx + 1,
            hi as int,
        ));
        let body_end = trim_end_index(&cs, 0, idx);
        let (b, e) = trim_indices(&cs, idx + 1, hi);
        (stdout.substring_char(0, body_end), stdout.substring_char(b, e))
    }
}

/// Whether a status code is one on which a request is worth repeating:
/// 408, 425, 429, or any code in 500..=599.
pub open spec fn spec_is_retryable_http_status(code: Seq<char>) -> bool {
    ||| code == "408"@
    ||| code == "425"@
    ||| code == "429"@
    ||| match parse_u16_spec(code) {
        Some(status) => 500 <= status <= 599,
        None => false,
    }
}

/// Whether curl's status code marks a transient failure.
pub fn is_retryable_http_status(code: &str) -> (r: bool)
    ensures
        r == spec_is_retryable_http_status(code@),
{
    if str_eq(code, "408") || str_eq(code, "425") || str_eq(code, "429") {
        return true;
    }
    match parse_u16(code) {
        Some(status) => 500 <= status && status <= 599,
        None => false,
    }
}

/// The config lines that add one header each.
pub open spec fn header_lines(headers: Seq<String>) -> Seq<char>
    decreases headers.len(),
{
    if headers.len() == 0 {
        Seq::empty()
    } else {
        header_lines(headers.drop_last()) + "header = \""@ + headers.last()@ + "\"\n"@
    }
}

/// The config lines that add one multipart text part each.
pub open spec fn form_lines(fields: Seq<(String, String)>) -> Seq<char>
    decreases fields.len(),
{
    if fields.len() == 0 {
        Seq::empty()
    } else {
        form_lines(fields.drop_last()) + "form = \""@ + fields.last().0@ + "="@ + fields.last().1@
            + "\"\n"@
    }
}

/// The `curl -K -` config for one transcription request.
pub open spec fn spec_curl_config(
    url: Seq<char>,
    bearer: Seq<char>,
    extra_headers: Seq<String>,
    form_fields: Seq<(String, String)>,
    wav_path: Seq<char>,
) -> Seq<char> {
    "url = \""@ + url + "\"\n"@ + "request = \"POST\"\n"@ + "header = \"Authorization: Bearer "@
        + bearer + "\"\n"@ + header_lines(extra_headers) + "form = \"file=@"@ + wav_path
        + ";type=audio/wav;filename=handy.wav\"\n"@ + form_lines(form_fields)
        + "http1.1\nsilent\nshow-error\n"@ + "connect-timeout = "@ + decimal(
        CONNECT_TIMEOUT_SECS as nat,
    ) + "\n"@ + "max-time = "@ + decimal(REQUEST_TIMEOUT_SECS as nat) + "\n"@
        + "write-out = \"\\n%{http_code}\"\n"@
}

/// Build the `curl -K -` config (one option per line). Fed to curl on stdin so
/// the bearer token never appears in the process argument list or on disk.
/// `extra_headers` are full `Name: value` strings; `form_fields` are additional
/// multipart text parts (e.g. `model`, `language`).
pub fn build_curl_config(
    url: &str,
    bearer: &str,
    extra_headers: &[String],
    form_fields: &[(String, String)],
    wav_path: &str,
) -> (cfg: String)
    ensures
        cfg@ == spec_curl_config(url@, bearer@, extra_headers@, form_fields@, wav_path@),
{
    let mut cfg = String::new();
    cfg.append("url = \"");
    cfg.append(url);
    cfg.append("\"\n");
    cfg.append("request = \"POST\"\n");
    cfg.append("header = \"Authorization: Bearer ");
    cfg.append(bearer);
    cfg.append("\"\n");
    let ghost head = cfg@;
    let mut i: usize = 0;
    while i < extra_headers.len()
        invariant
            i <= extra_headers@.len(),
            cfg@ == head + header_lines(extra_headers@.take(i as int)),
        decreases extra_headers@.len() - i,
    {
        assert(extra_headers@.take(i + 1).drop_last() =~= extra_headers@.take(i as int));
        cfg.append("header = \"");
        cfg.append(extra_headers[i].as_str());
        cfg.append("\"\n");
        i = i + 1;
        assert(cfg@ =~= head + header_lines(extra_headers@.take(i as int)));
    }
    assert(extra_headers@.take(i as int) =~= extra_headers@);
    cfg.append("form = \"file=@");
    cfg.append(wav_path);
    cfg.append(";type=audio/wav;filename=handy.wav\"\n");
    let ghost mid = cfg@;
    let mut j: usize = 0;
    while j < form_fields.len()
        invariant
            j <= form_fields@.len(),
            cfg@ == mid + form_lines(form_fields@.take(j as int)),
        decreases form_fields@.len() - j,
    {
        assert(form_fields@.take(j + 1).drop_last() =~= form_fields@.take(j as int));
        let (name, value) = &form_fields[j];
        cfg.append("form = \"");
        cfg.append(name.as_str());
        cfg.append("=");
        cfg.append(value.as_str());
        cfg.append("\"\n");
        j = j + 1;
        assert(cfg@ =~= mid + form_lines(form_fields@.take(j as int)));
    }
    assert(form_fields@.take(j as int) =~= form_fields@);
    cfg.append("http1.1\nsilent\nshow-error\n");
    cfg.append("connect-timeout = ");
    push_decimal(&mut cfg, CONNECT_TIMEOUT_SECS);
    cfg.append("\n");
    cfg.append("max-time = ");
    push_decimal(&mut cfg, REQUEST_TIMEOUT_SECS);
    cfg.append("\n");
    cfg.append("write-out = \"\\n%{http_code}\"\n");
    assert(cfg@ =~= spec_curl_config(url@, bearer@, extra_headers@, form_fields@, wav_path@));
    cfg
}

/// Whether `t` occurs in `s` starting at index `k`.
pub open spec fn occurs_at(s: Seq<char>, k: int, t: Seq<char>) -> bool {
    0 <= k && k + t.len() <= s.len() && s.subrange(k, k + t.len()) == t
}

/// What occurs in the middle part of a concatenation occurs in the whole,
/// shifted by the length of the first part.
proof fn lemma_occurs_in_middle(a: Seq<char>, m: Seq<char>, b: Seq<char>, k: int, t: Seq<char>)
    requires
        occurs_at(m, k, t),
    ensures
        occurs_at(a + m + b, a.len() + k, t),
{
    assert((a + m + b).subrange(a.len() + k, a.len() + k + t.len()) =~= m.subrange(k, k + t.len()));
}

/// The lines of the first `i` form fields begin the lines of all of them.
proof fn lemma_form_lines_prefix(fields: Seq<(String, String)>, i: int)
    requires
        0 <= i <= fields.len(),
    ensures
        form_lines(fields.take(i)).len() <= form_lines(fields).len(),
        form_lines(fields).subrange(0, form_lines(fields.take(i)).len() as int) == form_lines(
            fields.take(i),
        ),
    decreases fields.len(),
{
    if i == fields.len() {
        assert(fields.take(i) =~= fields);
        assert(form_lines(fields).subrange(0, form_lines(fields).len() as int) =~= form_lines(
            fields,
        ));
    } else {
        let d = fields.drop_last();
        assert(fields.take(i) =~= d.take(i));
        lemma_form_lines_prefix(d, i);
        let whole = form_lines(fields);
        assert(whole.subrange(0, form_lines(d).len() as int) =~= form_lines(d));
        assert(whole.subrange(0, form_lines(d.take(i)).len() as int) =~= form_lines(d).subrange(
            0,
            form_lines(d.take(i)).len() as int,
        ));
    }
}

/// The line of form field `i` follows the lines of the fields before it.
proof fn lemma_form_line_at(fields: Seq<(String, String)>, i: int)
    requires
        0 <= i < fields.len(),
    ensures
        occurs_at(
            form_lines(fields),
            form_lines(fields.take(i)).len() as int,
            "form = \""@ + fields[i].0@ + "="@ + fields[i].1@ + "\"\n"@,
        ),
        form_lines(fields.take(i)).len() < form_lines(fields.take(i + 1)).len(),
        form_lines(fields.take(i + 1)).len() <= form_lines(fields).len(),
{
    reveal_strlit("form = \"");
    let line = "form = \""@ + fields[i].0@ + "="@ + fields[i].1@ + "\"\n"@;
    let t = fields.take(i + 1);
    assert(t.drop_last() =~= fields.take(i));
    assert(t.last() == fields[i]);
    let p = form_lines(fields.take(i)).len() as int;
    assert(form_lines(t) =~= form_lines(fields.take(i)) + line);
    assert(form_lines(t).subrange(p, p + line.len()) =~= line);
    lemma_form_lines_prefix(fields, i + 1);
    assert(form_lines(fields).subrange(p, p + line.len()) =~= form_lines(t).subrange(
        p,
        p + line.len(),
    ));
}

/// The lines of the first `i` extra headers begin the lines of all of them.
proof fn lemma_header_lines_prefix(headers: Seq<String>, i: int)
    requires
        0 <= i <= headers.len(),
    ensures
        header_lines(headers.take(i)).len() <= header_lines(headers).len(),
        header_lines(headers).subrange(0, header_lines(headers.take(i)).len() as int)
            == header_lines(headers.take(i)),
    decreases headers.len(),
{
    if i == headers.len() {
        assert(headers.take(i) =~= headers);
        assert(header_lines(headers).subrange(0, header_lines(headers).len() as int)
            =~= header_lines(headers));
    } else {
        let d = headers.drop_last();
        assert(headers.take(i) =~= d.take(i));
        lemma_header_lines_prefix(d, i);
        let whole = header_lines(headers);
        assert(whole.subrange(0, header_lines(d).len() as int) =~= header_lines(d));
        assert(whole.subrange(0, header_lines(d.take(i)).len() as int) =~= header_lines(
            d,
        ).subrange(0, header_lines(d.take(i)).len() as int));
    }
}

/// The line of extra header `i` follows the lines of the headers before it.
proof fn lemma_header_line_at(headers: Seq<String>, i: int)
    requires
        0 <= i < headers.len(),
    ensures
        occurs_at(
            header_lines(headers),
            header_lines(headers.take(i)).len() as int,
            "header = \""@ + headers[i]@ + "\"\n"@,
        ),
        header_lines(headers.take(i)).len() < header_lines(headers.take(i + 1)).len(),
        header_lines(headers.take(i + 1)).len() <= header_lines(headers).len(),
{
    reveal_strlit("header = \"");
    let line = "header = \""@ + headers[i]@ + "\"\n"@;
    let t = headers.take(i + 1);
    assert(t.drop_last() =~= headers.take(i));
    assert(t.last() == headers[i]);
    let p = header_lines(headers.take(i)).len() as int;
    assert(header_lines(t) =~= header_lines(headers.take(i)) + line);
    assert(header_lines(t).subrange(p, p + line.len()) =~= line);
    lemma_header_lines_prefix(headers, i + 1);
    assert(header_lines(headers).subrange(p, p + line.len()) =~= header_lines(t).subrange(
        p,
        p + line.len(),
    ));
}

/// Every extra form field is sent, in order: field `i` gets its own
/// `form = "name=value"` line in the config, however many fields there are,
/// and the line of an earlier field comes before that of a later one.
pub proof fn law_every_form_field_is_sent(
    url: Seq<char>,
    bearer: Seq<char>,
    extra_headers: Seq<String>,
    form_fields: Seq<(String, String)>,
    wav_path: Seq<char>,
    i: int,
    j: int,
)
    requires
        0 <= i <= j < form_fields.len(),
    ensures
        exists|ki: int, kj: int|
            #![trigger occurs_at(spec_curl_config(url, bearer, extra_headers, form_fields, wav_path), ki, "form = \""@ + form_fields[i].0@ + "="@ + form_fields[i].1@ + "\"\n"@), occurs_at(spec_curl_config(url, bearer, extra_headers, form_fields, wav_path), kj, "form = \""@ + form_fields[j].0@ + "="@ + form_fields[j].1@ + "\"\n"@)]
            (i < j ==> ki < kj) && occurs_at(
                spec_curl_config(url, bearer, extra_headers, form_fields, wav_path),
                ki,
                "form = \""@ + form_fields[i].0@ + "="@ + form_fields[i].1@ + "\"\n"@,
            ) && occurs_at(
                spec_curl_config(url, bearer, extra_headers, form_fields, wav_path),
                kj,
                "form = \""@ + form_fields[j].0@ + "="@ + form_fields[j].1@ + "\"\n"@,
            ),
{
    let cfg = spec_curl_config(url, bearer, extra_headers, form_fields, wav_path);
    let pre = "url = \""@ + url + "\"\n"@ + "request = \"POST\"\n"@
        + "header = \"Authorization: Bearer "@ + bearer + "\"\n"@ + header_lines(extra_headers)
        + "form = \"file=@"@ + wav_path + ";type=audio/wav;filename=handy.wav\"\n"@;
    let post = "http1.1\nsilent\nshow-error\n"@ + "connect-timeout = "@ + decimal(
        CONNECT_TIMEOUT_SECS as nat,
    ) + "\n"@ + "max-time = "@ + decimal(REQUEST_TIMEOUT_SECS as nat) + "\n"@
        + "write-out = \"\\n%{http_code}\"\n"@;
    assert(cfg =~= pre + form_lines(form_fields) + post);
    lemma_form_line_at(form_fields, i);
    lemma_form_line_at(form_fields, j);
    if i < j {
        lemma_form_lines_prefix(form_fields.take(j), i + 1);
        assert(form_fields.take(j).take(i + 1) =~= form_fields.take(i + 1));
    }
    let li = "form = \""@ + form_fields[i].0@ + "="@ + form_fields[i].1@ + "\"\n"@;
    let lj = "form = \""@ + form_fields[j].0@ + "="@ + form_fields[j].1@ + "\"\n"@;
    let ki: int = pre.len() as int + form_lines(form_fields.take(i)).len() as int;
    let kj: int = pre.len() as int + form_lines(form_fields.take(j)).len() as int;
    lemma_occurs_in_middle(pre, form_lines(form_fields), post, form_lines(form_fields.take(i)).len() as int, li);
    lemma_occurs_in_middle(pre, form_lines(form_fields), post, form_lines(form_fields.take(j)).len() as int, lj);
    assert(occurs_at(cfg, ki, li) && occurs_at(cfg, kj, lj) && (i < j ==> ki < kj));
}

/// Every extra header is sent, in order: header `i` gets its own
/// `header = "Name: value"` line in the config, and the line of an earlier
/// header comes before that of a later one.
pub proof fn law_every_extra_header_is_sent(
    url: Seq<char>,
    bearer: Seq<char>,
    extra_headers: Seq<String>,
    form_fields: Seq<(String, String)>,
    wav_path: Seq<char>,
    i: int,
    j: int,
)
    requires
        0 <= i <= j < extra_headers.len(),
    ensures
        exists|ki: int, kj: int|
            #![trigger occurs_at(spec_curl_config(url, bearer, extra_headers, form_fields, wav_path), ki, "header = \""@ + extra_headers[i]@ + "\"\n"@), occurs_at(spec_curl_config(url, bearer, extra_headers, form_fields, wav_path), kj, "header = \""@ + extra_headers[j]@ + "\"\n"@)]
            (i < j ==> ki < kj) && occurs_at(
                spec_curl_config(url, bearer, extra_headers, form_fields, wav_path),
                ki,
                "header = \""@ + extra_headers[i]@ + "\"\n"@,
            ) && occurs_at(
                spec_curl_config(url, bearer, extra_headers, form_fields, wav_path),
                kj,
                "header = \""@ + extra_headers[j]@ + "\"\n"@,
            ),
{
    let cfg = spec_curl_config(url, bearer, extra_headers, form_fields, wav_path);
    let pre = "url = \""@ + url + "\"\n"@ + "request = \"POST\"\n"@
        + "header = \"Authorization: Bearer "@ + bearer + "\"\n"@;
    let post = "form = \"file=@"@ + wav_path + ";type=audio/wav;filename=handy.wav\"\n"@
        + form_lines(form_fields) + "http1.1\nsilent\nshow-error\n"@ + "connect-timeout = "@
        + decimal(CONNECT_TIMEOUT_SECS as nat) + "\n"@ + "max-time = "@ + decimal(
        REQUEST_TIMEOUT_SECS as nat,
    ) + "\n"@ + "write-out = \"\\n%{http_code}\"\n"@;
    assert(cfg =~= pre + header_lines(extra_headers) + post);
    lemma_header_line_at(extra_headers, i);
    lemma_header_line_at(extra_headers, j);
    if i < j {
        lemma_header_lines_prefix(extra_headers.take(j), i + 1);
        assert(extra_headers.take(j).take(i + 1) =~= extra_headers.take(i + 1));
    }
    let li = "header = \""@ + extra_headers[i]@ + "\"\n"@;
    let lj = "header = \""@ + extra_headers[j]@ + "\"\n"@;
    let ki: int = pre.len() as int + header_lines(extra_headers.take(i)).len() as int;
    let kj: int = pre.len() as int + header_lines(extra_headers.take(j)).len() as int;
    lemma_occurs_in_middle(pre, header_lines(extra_headers), post, header_lines(extra_headers.take(i)).len() as int, li);
    lemma_occurs_in_middle(pre, header_lines(extra_headers), post, header_lines(extra_headers.take(j)).len() as int, lj);
    assert(occurs_at(cfg, ki, li) && occurs_at(cfg, kj, lj) && (i < j ==> ki < kj));
}

/// The generation that follows `generation` once requests are cancelled.
pub open spec fn next_generation(generation: u64) -> u64 {
    if generation == u64::MAX {
        0
    } else {
        (generation + 1) as u64
    }
}

/// Whether a request that captured `captured` has been cancelled, given the
/// generation now current.
pub open spec fn cancelled_since(current: u64, captured: u64) -> bool {
    current != captured
}

/// Incrementing generation used to cancel currently running remote requests.
/// A generation avoids a stale cancellation affecting the next transcription.
pub struct CancelGeneration {
    generation: u64,
}

impl View for CancelGeneration {
    type V = u64;

    closed spec fn view(&self) -> u64 {
        self.generation
    }
}

impl CancelGeneration {
    /// The state before any cancellation.
    pub fn new() -> (r: Self)
        ensures
            r@ == 0,
    {
        CancelGeneration { generation: 0 }
    }
}

/// Cancel all currently running cloud transcription requests.
///
/// Handy only runs one normal transcription pipeline at a time, but using a
/// generation keeps this safe if a history retry happens to overlap.
pub fn cancel_active_requests(state: &mut CancelGeneration)
    ensures
        final(state)@ == next_generation(old(state)@),
{
    if state.generation == u64::MAX {
        state.generation = 0;
    } else {
        state.generation = state.generation + 1;
    }
}

/// The generation a request captures when it starts.
pub fn cancellation_generation(state: &CancelGeneration) -> (generation: u64)
    ensures
        generation == state@,
{
    state.generation
}

/// Whether requests were cancelled since `generation` was captured.
pub fn was_cancelled_since(state: &CancelGeneration, generation: u64) -> (r: bool)
    ensures
        r == cancelled_since(state@, generation),
{
    state.generation != generation
}

/// A cancellation reaches every request that was running when it was made:
/// the generation such a request captured is no longer the current one.
pub proof fn law_cancel_reaches_running_requests(captured: u64)
    ensures
        cancelled_since(next_generation(captured), captured),
{
}

/// A request that starts after a cancellation is not affected by it: the
/// generation it captures is the current one until the next cancellation.
pub proof fn law_no_stale_cancellation(current: u64)
    ensures
        !cancelled_since(current, current),
{
}

/// Nanoseconds per second.
pub const NANOS_PER_SEC: u64 = 1_000_000_000;

/// The first `n` characters of `s` (all of `s` when it is shorter).
pub open spec fn first_chars(s: Seq<char>, n: nat) -> Seq<char> {
    if s.len() <= n {
        s
    } else {
        s.take(n as int)
    }
}

/// Copies the first `n` characters of `s`.
pub fn take_chars(s: &str, n: usize) -> (r: String)
    ensures
        r@ == first_chars(s@, n as nat),
{
    let len = s.unicode_len();
    let end = if len <= n {
        len
    } else {
        n
    };
    let r = s.substring_char(0, end).to_owned();
    assert(r@ =~= first_chars(s@, n as nat));
    r
}

/// How one curl run ended, once its output has been read.
pub enum Verdict<S> {
    /// HTTP 200: the body, still to be parsed.
    Body(S),
    /// A transient failure, worth one more attempt.
    Retryable(S),
    /// A failure that repeating would not cure.
    Fatal(S),
}

impl View for Verdict<String> {
    type V = Verdict<Seq<char>>;

    open spec fn view(&self) -> Verdict<Seq<char>> {
        match self {
            Verdict::Body(s) => Verdict::Body(s@),
            Verdict::Retryable(s) => Verdict::Retryable(s@),
            Verdict::Fatal(s) => Verdict::Fatal(s@),
        }
    }
}

/// The status shown in an error message.
pub open spec fn display_code(code: Seq<char>) -> Seq<char> {
    if code.len() == 0 {
        "(no status)"@
    } else {
        code
    }
}

/// The detail shown in an error message: the start of the body, or curl's
/// own complaint when there is no body.
pub open spec fn failure_detail(body: Seq<char>, stderr: Seq<char>) -> Seq<char> {
    if body.len() == 0 {
        trim_ws(stderr)
    } else {
        first_chars(body, 300)
    }
}

/// The message of a request that did not answer HTTP 200.
pub open spec fn failure_message(body: Seq<char>, code: Seq<char>, stderr: Seq<char>) -> Seq<char> {
    "Transcription request failed: HTTP "@ + display_code(code) + " - "@ + failure_detail(
        body,
        stderr,
    )
}

/// Whether a run without a status failed soon enough to be a connection
/// failure (the connect timeout plus five seconds), not a full timeout.
pub open spec fn failed_during_connect(code: Seq<char>, elapsed_nanos: u64) -> bool {
    (code.len() == 0 || code == "000"@) && elapsed_nanos <= (CONNECT_TIMEOUT_SECS + 5)
        * NANOS_PER_SEC
}

/// How curl's decoded output classifies, `elapsed_nanos` after the request was sent.
pub open spec fn spec_classify_response(
    stdout: Seq<char>,
    stderr: Seq<char>,
    elapsed_nanos: u64,
) -> Verdict<Seq<char>> {
    let (body, code) = spec_split_response(stdout);
    if code == "200"@ {
        Verdict::Body(body)
    } else if spec_is_retryable_http_status(code) || failed_during_connect(code, elapsed_nanos) {
        Verdict::Retryable(failure_message(body, code, stderr))
    } else {
        Verdict::Fatal(failure_message(body, code, stderr))
    }
}

/// Classifies curl's output: HTTP 200 hands on the body; HTTP 408/425/429/5xx
/// and a missing or `000` status within the connect window are transient;
/// anything else is fatal.
pub fn classify_response(stdout: &str, stderr: &str, elapsed_nanos: u64) -> (r: Verdict<String>)
    ensures
        r@ == spec_classify_response(stdout@, stderr@, elapsed_nanos),
{
    let (body, code) = split_response(stdout);
    if str_eq(code, "200") {
        return Verdict::Body(body.to_owned());
    }
    let mut msg = String::new();
    msg.append("Transcription request failed: HTTP ");
    if code.unicode_len() == 0 {
        msg.append("(no status)");
    } else {
        msg.append(code);
    }
    msg.append(" - ");
    if body.unicode_len() == 0 {
        let cs = chars_of(stderr);
        let (b, e) = trim_indices(&cs, 0, cs.len());
        assert(cs@.subrange(0, cs@.len() as int) =~= cs@);
        msg.append(stderr.substring_char(b, e));
    } else {
        let detail = take_chars(body, 300);
        msg.append(detail.as_str());
    }
    let connect_window = (CONNECT_TIMEOUT_SECS + 5) * NANOS_PER_SEC;
    let no_status = code.unicode_len() == 0 || str_eq(code, "000");
    assert(msg@ =~= failure_message(body@, code@, stderr@));
    if is_retryable_http_status(code) || (no_status && elapsed_nanos <= connect_window) {
        Verdict::Retryable(msg)
    } else {
        Verdict::Fatal(msg)
    }
}

/// A run in which no HTTP exchange took place (curl writes the status `000`,
/// or nothing at all) is retried when it ends within the connect timeout plus
/// five seconds, ten seconds in all, of sending the request, and is fatal after
/// that; either way the message names the status and the detail.
pub proof fn law_no_http_exchange_is_retried_within_connect_window(
    body: Seq<char>,
    stderr: Seq<char>,
    elapsed_nanos: u64,
)
    ensures
        elapsed_nanos <= 10_000_000_000 ==> spec_classify_response(
            body + "\n000"@,
            stderr,
            elapsed_nanos,
        ) == Verdict::Retryable(
            "Transcription request failed: HTTP 000 - "@ + failure_detail(trim_end_ws(body), stderr),
        ),
        elapsed_nanos > 10_000_000_000 ==> spec_classify_response(
            body + "\n000"@,
            stderr,
            elapsed_nanos,
        ) == Verdict::Fatal(
            "Transcription request failed: HTTP 000 - "@ + failure_detail(trim_end_ws(body), stderr),
        ),
        elapsed_nanos <= 10_000_000_000 ==> spec_classify_response(
            Seq::empty(),
            stderr,
            elapsed_nanos,
        ) == Verdict::Retryable(
            "Transcription request failed: HTTP (no status) - "@ + trim_ws(stderr),
        ),
{
    reveal_strlit("\n000");
    reveal_strlit("000");
    reveal_strlit("200");
    reveal_strlit("408");
    reveal_strlit("425");
    reveal_strlit("429");
    let status = "000"@;
    assert(body + "\n000"@ =~= body + seq!['\n'] + status);
    assert(is_ascii_digit(status[0]) && is_ascii_digit(status[1]) && is_ascii_digit(status[2]));
    law_status_is_final_line(body, status);
    assert(status != "200"@);
    assert(unsigned_digits(status) == status);
    reveal_with_fuel(digits_value, 4);
    assert(digits_value(status) == 0);
    assert(parse_u16_spec(status) == Some(0nat));
    assert(!spec_is_retryable_http_status(status));
    assert(display_code(status) == status);
    assert("Transcription request failed: HTTP "@ + status + " - "@ =~= "Transcription request failed: HTTP 000 - "@) by {
        reveal_strlit("Transcription request failed: HTTP ");
        reveal_strlit(" - ");
        reveal_strlit("Transcription request failed: HTTP 000 - ");
    }
    let e = Seq::<char>::empty();
    assert(trim_end_line_breaks(e) == e);
    assert(trim_ws(e) =~= e);
    reveal_strlit("");
    assert(e != "200"@);
    assert(display_code(e) == "(no status)"@);
    assert("Transcription request failed: HTTP "@ + "(no status)"@ + " - "@ =~= "Transcription request failed: HTTP (no status) - "@) by {
        reveal_strlit("Transcription request failed: HTTP ");
        reveal_strlit(" - ");
        reveal_strlit("(no status)");
        reveal_strlit("Transcription request failed: HTTP (no status) - ");
    }
}

/// What one transcription request is sent: the endpoint, the bearer token,
/// extra `Name: value` headers, and extra multipart text parts.
pub struct RemoteRequest {
    pub url: String,
    pub bearer: String,
    pub extra_headers: Vec<String>,
    pub form_fields: Vec<(String, String)>,
}

/// The characters of an optional string.
pub open spec fn opt_view(o: Option<String>) -> Option<Seq<char>> {
    match o {
        Some(s) => Some(s@),
        None => None,
    }
}

/// The characters of each string.
pub open spec fn strings_view(v: Seq<String>) -> Seq<Seq<char>> {
    v.map_values(|s: String| s@)
}

/// The characters of each (name, value) pair.
pub open spec fn pairs_view(v: Seq<(String, String)>) -> Seq<(Seq<char>, Seq<char>)> {
    v.map_values(|p: (String, String)| (p.0@, p.1@))
}

/// The form fields that carry a normalized language: one `language` part, or
/// none for auto-detect.
pub open spec fn language_fields(language: Option<Seq<char>>) -> Seq<(Seq<char>, Seq<char>)> {
    match language {
        Some(lang) => seq![("language"@, lang)],
        None => Seq::empty(),
    }
}

/// Appends the `language` part for `selected_language`, if one is to be sent.
pub fn push_language_field(fields: &mut Vec<(String, String)>, selected_language: &str)
    ensures
        pairs_view(final(fields)@) == pairs_view(old(fields)@) + language_fields(
            spec_normalize_language(selected_language@),
        ),
{
    let ghost before = pairs_view(fields@);
    if let Some(lang) = normalize_language(selected_language) {
        fields.push(("language".to_owned(), lang));
        assert(pairs_view(fields@) =~= before + language_fields(
            spec_normalize_language(selected_language@),
        ));
    } else {
        assert(pairs_view(fields@) =~= before + language_fields(
            spec_normalize_language(selected_language@),
        ));
    }
}

/// `path` with each backslash turned into a forward slash.
pub open spec fn forward_slashes(path: Seq<char>) -> Seq<char> {
    path.map_values(|c: char| if c == '\\' { '/' } else { c })
}

/// The form of a temp file path handed to curl: Windows backslashes become
/// forward slashes, which curl's `file=@` form syntax takes on every platform.
pub fn curl_path_arg(path: &str) -> (r: String)
    ensures
        r@ == forward_slashes(path@),
{
    let cs = chars_of(path);
    let mut r = String::new();
    let mut i: usize = 0;
    while i < cs.len()
        invariant
            cs@ == path@,
            i <= cs@.len(),
            r@ == forward_slashes(path@).take(i as int),
        decreases cs@.len() - i,
    {
        if cs[i] == '\\' {
            r.append("/");
            proof {
                reveal_strlit("/");
            }
        } else {
            r.append(path.substring_char(i, i + 1));
        }
        i = i + 1;
        assert(r@ =~= forward_slashes(path@).take(i as int));
    }
    assert(forward_slashes(path@).take(i as int) =~= forward_slashes(path@));
    r
}

/// The name of the temp WAV of one request: unique per process and request.
pub open spec fn temp_wav_name(process_id: u32, counter: u64) -> Seq<char> {
    "handy-remote-"@ + decimal(process_id as nat) + "-"@ + decimal(counter as nat) + ".wav"@
}

/// The temp WAV file name for the `counter`-th request of process `process_id`.
pub fn temp_wav_file_name(process_id: u32, counter: u64) -> (r: String)
    ensures
        r@ == temp_wav_name(process_id, counter),
{
    let mut r = String::new();
    r.append("handy-remote-");
    push_decimal(&mut r, process_id as u64);
    r.append("-");
    push_decimal(&mut r, counter);
    r.append(".wav");
    r
}

/// Two requests never share a temp WAV: distinct (process, counter) pairs
/// give distinct file names.
pub proof fn law_temp_wav_names_are_unique(p1: u32, c1: u64, p2: u32, c2: u64)
    requires
        temp_wav_name(p1, c1) == temp_wav_name(p2, c2),
    ensures
        p1 == p2,
        c1 == c2,
{
    reveal_strlit("handy-remote-");
    reveal_strlit("-");
    reveal_strlit(".wav");
    let pre = "handy-remote-"@;
    let a1 = decimal(p1 as nat);
    let a2 = decimal(p2 as nat);
    let b1 = decimal(c1 as nat);
    let b2 = decimal(c2 as nat);
    lemma_decimal_digits(p1 as nat);
    lemma_decimal_digits(p2 as nat);
    lemma_decimal_digits(c1 as nat);
    lemma_decimal_digits(c2 as nat);
    let n1 = pre + a1 + "-"@ + b1 + ".wav"@;
    let n2 = pre + a2 + "-"@ + b2 + ".wav"@;
    assert(n1 == n2);
    assert(pre.len() == 13);
    if a1.len() < a2.len() {
        let k: int = 13 + a1.len() as int;
        assert(n1[k] == '-');
        assert(n2[k] == a2[a1.len() as int]);
        assert(is_ascii_digit(a2[a1.len() as int]));
        assert(false);
    }
    if a2.len() < a1.len() {
        let k: int = 13 + a2.len() as int;
        assert(n2[k] == '-');
        assert(n1[k] == a1[a2.len() as int]);
        assert(is_ascii_digit(a1[a2.len() as int]));
        assert(false);
    }
    assert(a1 =~= n1.subrange(13, 13 + a1.len() as int));
    assert(a2 =~= n2.subrange(13, 13 + a2.len() as int));
    lemma_decimal_injective(p1 as nat, p2 as nat);
    assert(b1.len() == b2.len());
    let start: int = 14 + a1.len() as int;
    assert(b1 =~= n1.subrange(start, start + b1.len() as int));
    assert(b2 =~= n2.subrange(start, start + b2.len() as int));
    lemma_decimal_injective(c1 as nat, c2 as nat);
}

} // verus!
