//! Decision logic of the local redirect listener that catches the admin
//! consent callback.
//!
//! The listener expects one GET request for the path `/redirect` whose query
//! string has the shape `admin_consent=<bool>&tenant=<string>`. The query is
//! a run of `key=value` pairs separated by `&`; a pair without `=` is a key
//! with an empty value; keys and values are taken verbatim (no
//! percent-decoding); unknown keys are ignored; a repeated known key, a
//! missing known key, or an `admin_consent` value other than `true` or
//! `false` makes the query unparseable. A parseable query on the right path
//! is answered with a fixed success message, anything else with a rejection
//! carrying no detail.

use vstd::prelude::*;
use vstd::string::StrSliceExecFns;
use vstd::string::StringExecFns;

verus! {

/// Relies on `String::push`: appends the given character to the end of the
/// string.
pub assume_specification[ String::push ](s: &mut String, ch: char)
    ensures
        final(s)@ == old(s)@.push(ch),
;

/// Whether two string slices hold the same characters.
pub fn str_eq(a: &str, b: &str) -> (r: bool)
    ensures
        r == (a@ == b@),
{
    let a_len: usize = a.unicode_len();
    let b_len: usize = b.unicode_len();
    if a_len != b_len {
        return false;
    }
    let mut i: usize = 0;
    while i < a_len
        invariant
            a_len == a@.len(),
            a_len == b_len,
            b_len == b@.len(),
            i <= a_len,
            forall|j: int| 0 <= j < i ==> a@[j] == b@[j],
        decreases a_len - i,
    {
        if a.get_char(i) != b.get_char(i) {
            return false;
        }
        i += 1;
    }
    proof {
        assert(a@ =~= b@);
    }
    true
}

/// Mathematical value of a [`ClientCredentialsResponse`].
pub struct ClientCredentialsResponseView {
    pub admin_consent: bool,
    pub tenant: Seq<char>,
}

/// The typed record parsed from the consent callback's query parameters.
#[derive(Debug, Clone)]
pub struct ClientCredentialsResponse {
    pub admin_consent: bool,
    pub tenant: String,
}

impl View for ClientCredentialsResponse {
    type V = ClientCredentialsResponseView;

    open spec fn view(&self) -> ClientCredentialsResponseView {
        ClientCredentialsResponseView {
            admin_consent: self.admin_consent,
            tenant: self.tenant@,
        }
    }
}

impl Default for ClientCredentialsResponse {
    fn default() -> (r: Self)
        ensures
            !r.admin_consent,
            r.tenant@ == Seq::<char>::empty(),
    {
        ClientCredentialsResponse { admin_consent: false, tenant: String::new() }
    }
}

/// State of the query scanner: the pair being read and what has been
/// committed so far.
pub struct QueryScan {
    pub cur_key: Seq<char>,
    pub cur_val: Seq<char>,
    pub in_value: bool,
    pub admin_consent: Option<Seq<char>>,
    pub tenant: Option<Seq<char>>,
    pub duplicate: bool,
}

/// The scanner state before any character has been read.
pub open spec fn scan_init() -> QueryScan {
    QueryScan {
        cur_key: Seq::<char>::empty(),
        cur_val: Seq::<char>::empty(),
        in_value: false,
        admin_consent: None,
        tenant: None,
        duplicate: false,
    }
}

/// Commits the pair being read: records the value of a known key, marks a
/// repeated known key as a duplicate, ignores any other key, and resets the
/// pair.
pub open spec fn commit_pair(st: QueryScan) -> QueryScan {
    let reset = QueryScan { cur_key: Seq::<char>::empty(), cur_val: Seq::<char>::empty(), in_value: false, ..st };
    if st.cur_key == "admin_consent"@ {
        if st.admin_consent is Some {
            QueryScan { duplicate: true, ..reset }
        } else {
            QueryScan { admin_consent: Some(st.cur_val), ..reset }
        }
    } else if st.cur_key == "tenant"@ {
        if st.tenant is Some {
            QueryScan { duplicate: true, ..reset }
        } else {
            QueryScan { tenant: Some(st.cur_val), ..reset }
        }
    } else {
        reset
    }
}

/// One character of scanning: `&` commits the pair, the first `=` of a pair
/// switches from key to value, any other character extends the key or the
/// value.
pub open spec fn scan_step(st: QueryScan, c: char) -> QueryScan {
    if c == '&' {
        commit_pair(st)
    } else if c == '=' && !st.in_value {
        QueryScan { in_value: true, ..st }
    } else if st.in_value {
        QueryScan { cur_val: st.cur_val.push(c), ..st }
    } else {
        QueryScan { cur_key: st.cur_key.push(c), ..st }
    }
}

/// Runs the scanner over a whole character sequence.
pub open spec fn scan_run(st: QueryScan, q: Seq<char>) -> QueryScan
    decreases q.len(),
{
    if q.len() == 0 {
        st
    } else {
        scan_run(scan_step(st, q[0]), q.subrange(1, q.len() as int))
    }
}

/// Scanning one more character is one more step.
proof fn lemma_scan_run_snoc(st: QueryScan, s: Seq<char>, c: char)
    ensures
        scan_run(st, s.push(c)) == scan_step(scan_run(st, s), c),
    decreases s.len(),
{
    if s.len() == 0 {
        assert(s.push(c)[0] == c);
        assert(s.push(c).subrange(1, 1) =~= Seq::<char>::empty());
        assert(scan_run(st, s.push(c)) == scan_run(scan_step(st, c), s.push(c).subrange(1, 1)));
        assert(scan_run(scan_step(st, c), s.push(c).subrange(1, 1)) == scan_step(st, c));
        assert(scan_run(st, s) == st);
    } else {
        let rest = s.subrange(1, s.len() as int);
        assert(s.push(c)[0] == s[0]);
        assert(s.push(c).subrange(1, s.push(c).len() as int) =~= rest.push(c));
        assert(scan_run(st, s.push(c)) == scan_run(scan_step(st, s[0]), rest.push(c)));
        lemma_scan_run_snoc(scan_step(st, s[0]), rest, c);
        assert(scan_run(st, s) == scan_run(scan_step(st, s[0]), rest));
    }
}

/// The boolean a query value stands for: exactly `true` or `false`.
pub open spec fn parse_bool_value(v: Seq<char>) -> Option<bool> {
    if v == "true"@ {
        Some(true)
    } else if v == "false"@ {
        Some(false)
    } else {
        None
    }
}

/// The record a query string parses to: both known keys exactly once, with a
/// boolean `admin_consent` value; otherwise nothing.
pub open spec fn parsed_redirect_query(q: Seq<char>) -> Option<ClientCredentialsResponseView> {
    let st = commit_pair(scan_run(scan_init(), q));
    if st.duplicate {
        None
    } else {
        match (st.admin_consent, st.tenant) {
            (Some(consent_val), Some(tenant_val)) => match parse_bool_value(consent_val) {
                Some(flag) => Some(
                    ClientCredentialsResponseView { admin_consent: flag, tenant: tenant_val },
                ),
                None => None,
            },
            _ => None,
        }
    }
}

/// The scanner state these exec values stand for.
pub open spec fn scan_abs(
    cur_key: Seq<char>,
    cur_val: Seq<char>,
    in_value: bool,
    admin_consent: Option<Seq<char>>,
    tenant: Option<Seq<char>>,
    duplicate: bool,
) -> QueryScan {
    QueryScan { cur_key, cur_val, in_value, admin_consent, tenant, duplicate }
}

fn commit_pair_exec(
    cur_key: &mut String,
    cur_val: &mut String,
    in_value: &mut bool,
    admin_consent: &mut Option<String>,
    tenant: &mut Option<String>,
    duplicate: &mut bool,
)
    ensures
        scan_abs(
            final(cur_key)@,
            final(cur_val)@,
            *final(in_value),
            final(admin_consent).deep_view(),
            final(tenant).deep_view(),
            *final(duplicate),
        ) == commit_pair(
            scan_abs(
                old(cur_key)@,
                old(cur_val)@,
                *old(in_value),
                old(admin_consent).deep_view(),
                old(tenant).deep_view(),
                *old(duplicate),
            ),
        ),
{
    if str_eq(cur_key.as_str(), "admin_consent") {
        if admin_consent.is_some() {
            *duplicate = true;
        } else {
            *admin_consent = Some(cur_val.clone());
        }
    } else if str_eq(cur_key.as_str(), "tenant") {
        if tenant.is_some() {
            *duplicate = true;
        } else {
            *tenant = Some(cur_val.clone());
        }
    }
    *cur_key = String::new();
    *cur_val = String::new();
    *in_value = false;
}

/// Parses a callback query string into the response record, or nothing when
/// the query does not have the expected shape.
pub fn parse_redirect_query(query: &str) -> (r: Option<ClientCredentialsResponse>)
    ensures
        r is Some <==> parsed_redirect_query(query@) is Some,
        r matches Some(resp) ==> Some(resp@) == parsed_redirect_query(query@),
{
    let n: usize = query.unicode_len();
    let mut cur_key = String::new();
    let mut cur_val = String::new();
    let mut in_value = false;
    let mut admin_consent: Option<String> = None;
    let mut tenant: Option<String> = None;
    let mut duplicate = false;
    let mut i: usize = 0;
    while i < n
        invariant
            n == query@.len(),
            i <= n,
            scan_abs(
                cur_key@,
                cur_val@,
                in_value,
                admin_consent.deep_view(),
                tenant.deep_view(),
                duplicate,
            ) == scan_run(scan_init(), query@.subrange(0, i as int)),
        decreases n - i,
    {
        let c = query.get_char(i);
        proof {
            let pre = query@.subrange(0, i as int);
            assert(query@.subrange(0, i + 1) =~= pre.push(c));
            lemma_scan_run_snoc(scan_init(), pre, c);
        }
        if c == '&' {
            commit_pair_exec(
                &mut cur_key,
                &mut cur_val,
                &mut in_value,
                &mut admin_consent,
                &mut tenant,
                &mut duplicate,
            );
        } else if c == '=' && !in_value {
            in_value = true;
        } else if in_value {
            cur_val.push(c);
        } else {
            cur_key.push(c);
        }
        i += 1;
    }
    proof {
        assert(query@.subrange(0, n as int) =~= query@);
    }
    commit_pair_exec(
        &mut cur_key,
        &mut cur_val,
        &mut in_value,
        &mut admin_consent,
        &mut tenant,
        &mut duplicate,
    );
    if duplicate {
        return None;
    }
    let consent_val = match admin_consent {
        Some(v) => v,
        None => {
            return None;
        },
    };
    let tenant_val = match tenant {
        Some(v) => v,
        None => {
            return None;
        },
    };
    let flag = if str_eq(consent_val.as_str(), "true") {
        true
    } else if str_eq(consent_val.as_str(), "false") {
        false
    } else {
        return None;
    };
    Some(ClientCredentialsResponse { admin_consent: flag, tenant: tenant_val })
}

/// Rejection of a redirect request: wrong path or unparseable query. It
/// carries no detail.
#[derive(Clone, Copy, Debug, PartialEq, Eq, Structural)]
pub struct RedirectRejection;

/// The fixed body of the success response.
pub open spec fn success_message() -> Seq<char> {
    "Successfully Logged In! You can close your browser."@
}

/// Answers the parse outcome: the success page when a response record was
/// parsed, a rejection otherwise.
pub fn handle_redirect(client_credential_option: Option<ClientCredentialsResponse>) -> (r: Result<
    String,
    RedirectRejection,
>)
    ensures
        r is Ok <==> client_credential_option is Some,
        r matches Ok(msg) ==> msg@ == success_message(),
{
    match client_credential_option {
        Some(_) => Ok(String::from_str("Successfully Logged In! You can close your browser.")),
        None => Err(RedirectRejection),
    }
}

/// Whether a GET request with this path and query is answered with the
/// success page.
pub open spec fn redirect_request_accepted(path: Seq<char>, query: Seq<char>) -> bool {
    path == "/redirect"@ && parsed_redirect_query(query) is Some
}

/// Decides one GET request to the listener: the fixed path `/redirect` and a
/// parseable query get the success page, anything else a rejection. A
/// request without a query string is handed an empty query.
pub fn handle_redirect_request(path: &str, query: &str) -> (r: Result<String, RedirectRejection>)
    ensures
        r is Ok <==> redirect_request_accepted(path@, query@),
        r matches Ok(msg) ==> msg@ == success_message(),
{
    if !str_eq(path, "/redirect") {
        return Err(RedirectRejection);
    }
    handle_redirect(parse_redirect_query(query))
}

} // verus!
