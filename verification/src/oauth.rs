//! Login with a browser: the page that it opens, and the callback by which it
//! brings the authorization code.

use vstd::prelude::*;
use vstd::string::*;
use vstd::utf8::*;

use crate::encoding;
use crate::text;

verus! {

// ---------------------------------------------------------------------------
// The code in a callback
// ---------------------------------------------------------------------------

/// The first line of `s`.
pub open spec fn first_line(s: Seq<char>) -> Seq<char> {
    s.take(text::first_index(s, '\n') as int)
}

/// The code that one `key=value` pair of a query brings.
pub open spec fn code_of_pair(pair: Seq<char>) -> Option<Seq<char>> {
    let key = pair.take(text::first_index(pair, '=') as int);
    if pair.contains('=') && (key == "code_autorisation"@ || key == "code"@) {
        encoding::url_decoded(pair.skip(text::first_index(pair, '=') as int + 1))
    } else {
        None
    }
}

/// The code that the first of `pairs` with one brings.
pub open spec fn first_code(pairs: Seq<Seq<char>>) -> Option<Seq<char>>
    decreases pairs.len(),
{
    if pairs.len() == 0 {
        None
    } else {
        match code_of_pair(pairs.first()) {
            Some(code) => Some(code),
            None => first_code(pairs.drop_first()),
        }
    }
}

/// The code that the target of a request brings in its query.
pub open spec fn code_of_target(target: Seq<char>) -> Option<Seq<char>> {
    match text::after_first(target, '?') {
        Some(query) => first_code(text::pieces(query, '&')),
        None => None,
    }
}

/// The code that a request brings: the second word of its first line is the
/// target.
pub open spec fn code_in_request(request: Seq<char>) -> Option<Seq<char>> {
    match text::second_word(first_line(request)) {
        Some(target) => code_of_target(target),
        None => None,
    }
}

pub open spec fn code_view(code: Option<String>) -> Option<Seq<char>> {
    match code {
        Some(text) => Some(text@),
        None => None,
    }
}

fn code_from_pair(pair: &str) -> (r: Option<String>)
    ensures
        code_view(r) == code_of_pair(pair@),
{
    match text::split_once(pair, '=') {
        Some((key, value)) => if *key == *"code_autorisation" || *key == *"code" {
            encoding::url_decode(value)
        } else {
            None
        },
        None => None,
    }
}

fn code_from_query(query: &str) -> (r: Option<String>)
    ensures
        code_view(r) == first_code(text::pieces(query@, '&')),
    decreases query@.len(),
{
    proof {
        text::lemma_first_index(query@, '&');
    }
    match text::split_once(query, '&') {
        Some((pair, rest)) => {
            let ghost others = text::pieces(rest@, '&');
            proof {
                assert((seq![pair@] + others).drop_first() =~= others);
            }
            match code_from_pair(pair) {
                Some(code) => Some(code),
                None => code_from_query(rest),
            }
        },
        None => {
            proof {
                reveal_with_fuel(first_code, 2);
                assert(seq![query@].drop_first() =~= Seq::<Seq<char>>::empty());
            }
            code_from_pair(query)
        },
    }
}

/// Reads the authorization code from a request.
pub fn parse_oauth_code_from_request(request: &str) -> (r: Option<String>)
    ensures
        code_view(r) == code_in_request(request@),
{
    let end: usize = text::find_char(request, '\n');
    proof {
        text::lemma_first_index(request@, '\n');
    }
    let line = request.substring_char(0, end);
    assert(line@ =~= first_line(request@));
    match text::nth_word_two(line) {
        Some(target) => match text::split_once(target, '?') {
            Some((_, query)) => code_from_query(query),
            None => None,
        },
        None => None,
    }
}

// ---------------------------------------------------------------------------
// The answer to a callback
// ---------------------------------------------------------------------------

/// A page with a title and a message.
pub open spec fn page(title: Seq<char>, message: Seq<char>) -> Seq<char> {
    "<!doctype html><html><head><meta charset=\"utf-8\"><title>"@ + title
        + "</title></head><body style=\"font-family:system-ui,sans-serif;text-align:center;padding:64px\"><h2>"@
        + title + "</h2><p>"@ + message + "</p></body></html>"@
}

pub fn oauth_html(title: &str, message: &str) -> (r: String)
    ensures
        r@ == page(title@, message@),
{
    let mut html = "<!doctype html><html><head><meta charset=\"utf-8\"><title>".to_owned();
    html.append(title);
    html.append(
        "</title></head><body style=\"font-family:system-ui,sans-serif;text-align:center;padding:64px\"><h2>",
    );
    html.append(title);
    html.append("</h2><p>");
    html.append(message);
    html.append("</p></body></html>");
    html
}

/// The page that answers a callback with or without a code.
pub open spec fn answer_page(found: bool) -> Seq<char> {
    if found {
        page("Login successful"@, "You can close this tab and return to qconnect."@)
    } else {
        page(
            "Login failed"@,
            "No authorization code was received. Return to qconnect and try again."@,
        )
    }
}

/// A page as an HTTP response, with its length in bytes.
pub open spec fn response_with(body: Seq<char>) -> Seq<char> {
    "HTTP/1.1 200 OK\r\ncontent-type: text/html; charset=utf-8\r\ncontent-length: "@
        + text::decimal(encode_utf8(body).len()) + "\r\nconnection: close\r\n\r\n"@ + body
}

/// The response that carries a page.
pub fn http_response(body: &str) -> (r: String)
    ensures
        r@ == response_with(body@),
{
    let length: usize = body.as_bytes().len();
    let mut response =
        "HTTP/1.1 200 OK\r\ncontent-type: text/html; charset=utf-8\r\ncontent-length: ".to_owned();
    response.append(text::decimal_text(length as u64).as_str());
    response.append("\r\nconnection: close\r\n\r\n");
    response.append(body);
    response
}

/// The code that a callback brought, and the response to it.
#[derive(Debug, PartialEq, Eq)]
pub struct CallbackAnswer {
    pub code: Option<String>,
    pub response: String,
}

/// Answers a callback.
pub fn answer_callback(request: &str) -> (r: CallbackAnswer)
    ensures
        code_view(r.code) == code_in_request(request@),
        r.response@ == response_with(answer_page(code_in_request(request@) is Some)),
{
    let code = parse_oauth_code_from_request(request);
    let body = if code.is_some() {
        oauth_html("Login successful", "You can close this tab and return to qconnect.")
    } else {
        oauth_html(
            "Login failed",
            "No authorization code was received. Return to qconnect and try again.",
        )
    };
    let response = http_response(body.as_str());
    CallbackAnswer { code, response }
}

// ---------------------------------------------------------------------------
// The page that the browser opens
// ---------------------------------------------------------------------------

/// The host that a browser finds a listener under that is bound to `bind`,
/// with the address of this machine, when it is known, for those that listen
/// everywhere.
pub open spec fn redirect_host(bind: Seq<char>, lan_ip: Option<Seq<char>>) -> Seq<char> {
    if bind == "::1"@ {
        "[::1]"@
    } else if bind == "0.0.0.0"@ || bind == "::"@ {
        match lan_ip {
            Some(ip) => ip,
            None => "localhost"@,
        }
    } else {
        bind
    }
}

/// The host that a browser finds a listener under.
pub fn redirect_host_for_bind(bind: &str, lan_ip: Option<String>) -> (r: String)
    ensures
        r@ == redirect_host(bind@, code_view(lan_ip)),
{
    if *bind == *"::1" {
        "[::1]".to_owned()
    } else if *bind == *"0.0.0.0" || *bind == *"::" {
        match lan_ip {
            Some(ip) => ip,
            None => "localhost".to_owned(),
        }
    } else {
        bind.to_owned()
    }
}

/// Whether other machines can reach this one under an address.
pub fn usable_lan_ip(ip: &str) -> (r: bool)
    ensures
        r == (ip@ != "0.0.0.0"@ && ip@ != "127.0.0.1"@),
{
    *ip != *"0.0.0.0" && *ip != *"127.0.0.1"
}

/// The URL under which the callback is awaited.
pub open spec fn redirect_url_of(host: Seq<char>, port: u16) -> Seq<char> {
    "http://"@ + host + ":"@ + text::decimal(port as nat)
}

pub fn redirect_url(host: &str, port: u16) -> (r: String)
    ensures
        r@ == redirect_url_of(host@, port),
{
    let mut url = "http://".to_owned();
    url.append(host);
    url.append(":");
    url.append(text::decimal_text(port as u64).as_str());
    url
}

/// The URL of the page where the user grants access.
pub open spec fn oauth_url_of(app_id: Seq<char>, redirect: Seq<char>) -> Seq<char> {
    "https://www.qobuz.com/signin/oauth?ext_app_id="@ + app_id + "&redirect_url="@
        + encoding::url_encoded(redirect)
}

pub fn oauth_url(app_id: &str, redirect: &str) -> (r: String)
    ensures
        r@ == oauth_url_of(app_id@, redirect@),
{
    let mut url = "https://www.qobuz.com/signin/oauth?ext_app_id=".to_owned();
    url.append(app_id);
    url.append("&redirect_url=");
    url.append(encoding::url_encode(redirect).as_str());
    url
}

// ---------------------------------------------------------------------------
// Laws
// ---------------------------------------------------------------------------

/// The code that a browser brings back is the code that the server gave it,
/// whatever characters are in it.
pub proof fn callback_code_reads_back(code: Seq<char>, rest: Seq<char>)
    ensures
        code_in_request(
            "GET /?code="@ + encoding::url_encoded(code) + " HTTP/1.1\r\n"@ + rest,
        ) == Some(code),
{
    let sent = encoding::url_encoded(code);
    let n = sent.len() as int;
    let request = "GET /?code="@ + sent + " HTTP/1.1\r\n"@ + rest;
    let line = "GET /?code="@ + sent + " HTTP/1.1\r"@;
    let target = "/?code="@ + sent;
    let query = "code="@ + sent;
    encoding::url_text_is_plain(code);
    encoding::url_text_reads_back(code);
    reveal_strlit("GET /?code=");
    reveal_strlit(" HTTP/1.1\r\n");
    reveal_strlit(" HTTP/1.1\r");
    reveal_strlit("/?code=");
    reveal_strlit("code=");
    reveal_strlit("code");
    assert forall|i: int| 0 <= i < n implies !text::is_white_space(#[trigger] sent[i]) && sent[i]
        != '&' && sent[i] != '\n' by {
        assert(encoding::is_url_char(sent[i]));
    }
    // The first line.
    assert(request[11 + n + 10] == '\n');
    assert forall|i: int| 0 <= i < 11 + n + 10 implies request[i] != '\n' by {
        if 11 <= i < 11 + n {
            assert(request[i] == sent[i - 11]);
        }
    }
    text::lemma_first_index_is(request, '\n', (11 + n + 10) as nat);
    assert(first_line(request) =~= line);
    // Its second word.
    text::lemma_leading_is(line, true, 0);
    assert(text::skip_white(line) =~= line);
    text::lemma_leading_is(line, false, 3);
    let gap = line.skip(3);
    text::lemma_leading_is(gap, true, 1);
    let second = text::skip_white(gap);
    assert(second =~= line.skip(4));
    assert forall|i: int| 0 <= i < 7 + n implies !text::is_white_space(second[i]) by {
        if 7 <= i {
            assert(second[i] == sent[i - 7]);
        }
    }
    assert(second[7 + n] == ' ');
    text::lemma_leading_is(second, false, (7 + n) as nat);
    assert(second.take(7 + n) =~= target);
    assert(text::second_word(line) == Some(target));
    // Its query.
    assert(target[1] == '?');
    text::lemma_first_index_is(target, '?', 1);
    text::lemma_first_index(target, '?');
    assert(target.skip(2) =~= query);
    assert(text::after_first(target, '?') == Some(query));
    assert forall|i: int| 0 <= i < query.len() implies query[i] != '&' by {
        if i >= 5 {
            assert(query[i] == sent[i - 5]);
        }
    }
    text::lemma_first_index_is(query, '&', query.len());
    assert(text::pieces(query, '&') == seq![query]);
    // Its code.
    assert(query[4] == '=');
    text::lemma_first_index_is(query, '=', 4);
    text::lemma_first_index(query, '=');
    assert(query.take(4) =~= "code"@);
    assert(query.skip(5) =~= sent);
    assert(code_of_pair(query) == Some(code));
    assert(seq![query].first() == query);
}

/// The server reads back the URL under which the callback is awaited.
pub proof fn redirect_url_reads_back(host: Seq<char>, port: u16)
    ensures
        encoding::url_decoded(encoding::url_encoded(redirect_url_of(host, port))) == Some(
            redirect_url_of(host, port),
        ),
{
    encoding::url_text_reads_back(redirect_url_of(host, port));
}

/// A browser is never sent to an address that stands for all of them.
pub proof fn redirect_host_is_never_a_wildcard(bind: Seq<char>, lan_ip: Option<Seq<char>>)
    requires
        lan_ip matches Some(ip) ==> ip != "0.0.0.0"@ && ip != "::"@,
    ensures
        redirect_host(bind, lan_ip) != "0.0.0.0"@,
        redirect_host(bind, lan_ip) != "::"@,
{
    reveal_strlit("[::1]");
    reveal_strlit("localhost");
    reveal_strlit("0.0.0.0");
    reveal_strlit("::");
    assert("[::1]"@.len() == 5);
    assert("localhost"@.len() == 9);
    assert("0.0.0.0"@.len() == 7);
    assert("::"@.len() == 2);
}

/// A pair brings a code only under one of the two names for it, and then what
/// stands behind the first equals sign, decoded.
pub proof fn codes_stand_behind_their_name(key: Seq<char>, value: Seq<char>)
    requires
        !key.contains('='),
    ensures
        key == "code"@ || key == "code_autorisation"@ ==> code_of_pair(key.push('=') + value)
            == encoding::url_decoded(value),
        key != "code"@ && key != "code_autorisation"@ ==> code_of_pair(key.push('=') + value)
            is None,
        code_of_pair(key) is None,
{
    let pair = key.push('=') + value;
    text::text_is_split_at_the_first(key, '=', value);
    assert(pair[key.len() as int] == '=');
    assert(pair.contains('='));
    assert(pair.take(key.len() as int) =~= key);
    assert(pair.skip(key.len() as int + 1) =~= value);
}

/// The first pair that brings a code decides.
pub proof fn first_code_decides(pairs: Seq<Seq<char>>, at: int)
    requires
        0 <= at <= pairs.len(),
        at < pairs.len() ==> code_of_pair(pairs[at]) is Some,
        forall|i: int| 0 <= i < at ==> code_of_pair(#[trigger] pairs[i]) is None,
    ensures
        first_code(pairs) == (if at < pairs.len() {
            code_of_pair(pairs[at])
        } else {
            None
        }),
    decreases pairs.len(),
{
    if pairs.len() > 0 && at > 0 {
        let rest = pairs.drop_first();
        assert(pairs[0] == pairs.first());
        assert forall|i: int| 0 <= i < at - 1 implies code_of_pair(#[trigger] rest[i]) is None by {
            assert(rest[i] == pairs[i + 1]);
        }
        if at < pairs.len() {
            assert(rest[at - 1] == pairs[at]);
        }
        first_code_decides(rest, at - 1);
    }
}

/// A target brings the code in what stands behind its question mark, and none
/// without one.
pub proof fn codes_stand_in_the_query(path: Seq<char>, query: Seq<char>)
    requires
        !path.contains('?'),
    ensures
        code_of_target(path.push('?') + query) == first_code(text::pieces(query, '&')),
        code_of_target(path) is None,
{
    text::text_is_split_at_the_first(path, '?', query);
}

/// Only the first line of a request counts.
pub proof fn only_the_first_line_counts(line: Seq<char>, rest: Seq<char>)
    requires
        !line.contains('\n'),
    ensures
        code_in_request(line.push('\n') + rest) == code_in_request(line),
{
    text::text_is_split_at_the_first(line, '\n', rest);
    assert((line.push('\n') + rest).take(line.len() as int) =~= line);
    assert(line.take(line.len() as int) =~= line);
}

/// A browser is sent to the loopback address in brackets, to the machine's
/// address, or the local name, where the listener hears everyone, and to any
/// other address as it stands.
pub proof fn redirect_host_is_where_the_listener_is(bind: Seq<char>, lan_ip: Option<Seq<char>>)
    ensures
        bind == "::1"@ ==> redirect_host(bind, lan_ip) == "[::1]"@,
        bind == "0.0.0.0"@ || bind == "::"@ ==> match lan_ip {
            Some(ip) => redirect_host(bind, lan_ip) == ip,
            None => redirect_host(bind, lan_ip) == "localhost"@,
        },
        bind != "::1"@ && bind != "0.0.0.0"@ && bind != "::"@ ==> redirect_host(bind, lan_ip)
            == bind,
{
    reveal_strlit("::1");
    reveal_strlit("0.0.0.0");
    reveal_strlit("::");
    assert("::1"@.len() == 3);
    assert("0.0.0.0"@.len() == 7);
    assert("::"@.len() == 2);
}

/// The URL of the callback names its host and its port, and the page of the
/// login the program and, encoded, that URL.
pub proof fn urls_name_what_they_lead_to(
    host: Seq<char>,
    port: u16,
    app_id: Seq<char>,
    redirect: Seq<char>,
)
    ensures
        ({
            let url = redirect_url_of(host, port);
            let n = host.len() as int;
            &&& url.take(7) == "http://"@
            &&& url.subrange(7, 7 + n) == host
            &&& url[7 + n] == ':'
            &&& text::number_said(url.skip(8 + n)) == port
        }),
        ({
            let url = oauth_url_of(app_id, redirect);
            let sent = encoding::url_encoded(redirect);
            let n = app_id.len() as int;
            &&& url.take(46) == "https://www.qobuz.com/signin/oauth?ext_app_id="@
            &&& url.subrange(46, 46 + n) == app_id
            &&& url.subrange(46 + n, 60 + n) == "&redirect_url="@
            &&& url.skip(60 + n) == sent
            &&& encoding::url_decoded(url.skip(60 + n)) == Some(redirect)
        }),
{
    reveal_strlit("http://");
    reveal_strlit(":");
    reveal_strlit("https://www.qobuz.com/signin/oauth?ext_app_id=");
    reveal_strlit("&redirect_url=");
    assert("http://"@.len() == 7);
    assert(":"@.len() == 1);
    assert("https://www.qobuz.com/signin/oauth?ext_app_id="@.len() == 46);
    assert("&redirect_url="@.len() == 14);
    let url = redirect_url_of(host, port);
    text::decimal_reads_back(port as nat);
    assert(url.skip(8 + host.len() as int) =~= text::decimal(port as nat));
    let page = oauth_url_of(app_id, redirect);
    assert(page.skip(60 + app_id.len() as int) =~= encoding::url_encoded(redirect));
    encoding::url_text_reads_back(redirect);
}

/// A response carries its page unchanged behind a head that says how many bytes
/// it has.
pub proof fn responses_carry_their_page(body: Seq<char>)
    ensures
        ({
            let response = response_with(body);
            let head = "HTTP/1.1 200 OK\r\ncontent-type: text/html; charset=utf-8\r\ncontent-length: "@;
            let digits = text::decimal(encode_utf8(body).len());
            &&& body.len() <= response.len()
            &&& response.skip(response.len() - body.len()) == body
            &&& (head + digits + "\r\n"@).is_prefix_of(response)
            &&& text::number_said(digits) == encode_utf8(body).len()
            &&& response.subrange(response.len() - body.len() - 4, response.len() - body.len())
                == "\r\n\r\n"@
        }),
{
    let response = response_with(body);
    let head = "HTTP/1.1 200 OK\r\ncontent-type: text/html; charset=utf-8\r\ncontent-length: "@;
    let digits = text::decimal(encode_utf8(body).len());
    text::decimal_reads_back(encode_utf8(body).len());
    reveal_strlit("\r\n");
    reveal_strlit("\r\n\r\n");
    reveal_strlit("\r\nconnection: close\r\n\r\n");
    assert("\r\n"@.len() == 2);
    assert("\r\n\r\n"@.len() == 4);
    assert("\r\nconnection: close\r\n\r\n"@.len() == 23);
    assert(response.skip(response.len() - body.len()) =~= body);
    assert((head + digits + "\r\n"@) =~= response.take((head + digits + "\r\n"@).len() as int));
    let end = response.len() - body.len();
    assert(response.subrange(end - 4, end) =~= "\r\n\r\n"@);
}

/// A page shows its title and its message, and the page for a code is not the
/// one for its absence.
pub proof fn pages_show_title_and_message(title: Seq<char>, message: Seq<char>)
    ensures
        text::contains_text(page(title, message), "<h2>"@ + title + "</h2><p>"@ + message + "</p>"@),
        text::contains_text(page(title, message), "<title>"@ + title + "</title>"@),
        text::contains_text(answer_page(true), "<h2>"@ + "Login successful"@ + "</h2>"@),
        text::contains_text(answer_page(false), "<h2>"@ + "Login failed"@ + "</h2>"@),
{
    lemma_page_shows(title, message);
    lemma_page_shows(
        "Login successful"@,
        "You can close this tab and return to qconnect."@,
    );
    lemma_page_shows(
        "Login failed"@,
        "No authorization code was received. Return to qconnect and try again."@,
    );
}

proof fn lemma_page_shows(title: Seq<char>, message: Seq<char>)
    ensures
        text::contains_text(page(title, message), "<h2>"@ + title + "</h2><p>"@ + message + "</p>"@),
        text::contains_text(page(title, message), "<title>"@ + title + "</title>"@),
        text::contains_text(page(title, message), "<h2>"@ + title + "</h2>"@),
{
    let start = "<!doctype html><html><head><meta charset=\"utf-8\"><title>"@;
    let middle = "</title></head><body style=\"font-family:system-ui,sans-serif;text-align:center;padding:64px\"><h2>"@;
    reveal_strlit("<!doctype html><html><head><meta charset=\"utf-8\"><title>");
    reveal_strlit(
        "</title></head><body style=\"font-family:system-ui,sans-serif;text-align:center;padding:64px\"><h2>",
    );
    reveal_strlit("</h2><p>");
    reveal_strlit("</p></body></html>");
    reveal_strlit("<h2>");
    reveal_strlit("</h2>");
    reveal_strlit("</p>");
    reveal_strlit("<title>");
    reveal_strlit("</title>");
    let all = page(title, message);
    let s = start.len() as int;
    let m = s + title.len() + middle.len();
    let shown = "<h2>"@ + title + "</h2><p>"@ + message + "</p>"@;
    assert(all.subrange(m - 4, m - 4 + shown.len()) =~= shown);
    let headed = "<h2>"@ + title + "</h2>"@;
    assert(all.subrange(m - 4, m - 4 + headed.len()) =~= headed);
    let titled = "<title>"@ + title + "</title>"@;
    assert(all.subrange(s - 7, s - 7 + titled.len()) =~= titled);
}

} // verus!
