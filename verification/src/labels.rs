//! Semantic-convention label sets for the HTTP server instruments.

use vstd::prelude::*;

verus! {

/// One metric label: a key–value pair attached to an observation.
#[derive(Debug, PartialEq, Eq)]
pub struct Label {
    pub key: String,
    pub value: String,
}

impl View for Label {
    type V = (Seq<char>, Seq<char>);

    open spec fn view(&self) -> (Seq<char>, Seq<char>) {
        (self.key@, self.value@)
    }
}

impl DeepView for Label {
    type V = (Seq<char>, Seq<char>);

    open spec fn deep_view(&self) -> (Seq<char>, Seq<char>) {
        self.view()
    }
}

/// Whether a label set carries the pair `(key, value)`.
pub open spec fn spec_labels_contain(
    labels: Seq<(Seq<char>, Seq<char>)>,
    key: Seq<char>,
    value: Seq<char>,
) -> bool {
    exists|i: int| 0 <= i < labels.len() && labels[i] == (key, value)
}

/// Whether a label set carries some pair with the given key.
pub open spec fn spec_labels_contain_key(
    labels: Seq<(Seq<char>, Seq<char>)>,
    key: Seq<char>,
) -> bool {
    exists|i: int| 0 <= i < labels.len() && #[trigger] labels[i].0 == key
}

/// The digit character for a value below ten.
pub open spec fn spec_digit_char(d: nat) -> char {
    if d == 0 {
        '0'
    } else if d == 1 {
        '1'
    } else if d == 2 {
        '2'
    } else if d == 3 {
        '3'
    } else if d == 4 {
        '4'
    } else if d == 5 {
        '5'
    } else if d == 6 {
        '6'
    } else if d == 7 {
        '7'
    } else if d == 8 {
        '8'
    } else {
        '9'
    }
}

/// The decimal digits of `n`, most significant first, without leading zeros
/// (a lone zero for `n == 0`).
pub open spec fn spec_dec_str(n: nat) -> Seq<char>
    decreases n,
{
    if n < 10 {
        seq![spec_digit_char(n)]
    } else {
        spec_dec_str(n / 10).push(spec_digit_char(n % 10))
    }
}

/// The single-character string for a decimal digit.
fn digit_str(d: u16) -> (r: &'static str)
    requires
        d < 10,
    ensures
        r@ =~= seq![spec_digit_char(d as nat)],
{
    if d == 0 {
        proof { reveal_strlit("0"); }
        "0"
    } else if d == 1 {
        proof { reveal_strlit("1"); }
        "1"
    } else if d == 2 {
        proof { reveal_strlit("2"); }
        "2"
    } else if d == 3 {
        proof { reveal_strlit("3"); }
        "3"
    } else if d == 4 {
        proof { reveal_strlit("4"); }
        "4"
    } else if d == 5 {
        proof { reveal_strlit("5"); }
        "5"
    } else if d == 6 {
        proof { reveal_strlit("6"); }
        "6"
    } else if d == 7 {
        proof { reveal_strlit("7"); }
        "7"
    } else if d == 8 {
        proof { reveal_strlit("8"); }
        "8"
    } else {
        proof { reveal_strlit("9"); }
        "9"
    }
}

/// Formats a status code (or any small integer) as a decimal string,
/// the `http.response.status_code` label value.
pub fn decimal_string(n: u16) -> (r: String)
    ensures
        r@ == spec_dec_str(n as nat),
    decreases n,
{
    let d: u16 = n % 10;
    let ds = digit_str(d);
    if n < 10 {
        String::from_str(ds)
    } else {
        let mut s = decimal_string(n / 10);
        s.append(ds);
        proof {
            assert(s@ =~= spec_dec_str((n / 10) as nat).push(spec_digit_char((n % 10) as nat)));
        }
        s
    }
}

/// The labels shared by every instrument of one request:
/// `http.request.method` and `url.scheme`.
pub open spec fn spec_common_labels(
    method: Seq<char>,
    scheme: Seq<char>,
) -> Seq<(Seq<char>, Seq<char>)> {
    seq![("http.request.method"@, method), ("url.scheme"@, scheme)]
}

/// The label set of the `http.server.request.duration` histogram: status
/// code, method, protocol name and version, scheme, and the matched route
/// when one is present.
pub open spec fn spec_duration_labels(
    status: u16,
    method: Seq<char>,
    protocol_name: Seq<char>,
    protocol_version: Seq<char>,
    scheme: Seq<char>,
    route: Option<Seq<char>>,
) -> Seq<(Seq<char>, Seq<char>)> {
    let base = seq![
        ("http.response.status_code"@, spec_dec_str(status as nat)),
        ("http.request.method"@, method),
        ("network.protocol.name"@, protocol_name),
        ("network.protocol.version"@, protocol_version),
        ("url.scheme"@, scheme),
    ];
    match route {
        Some(r) => base.push(("http.route"@, r)),
        None => base,
    }
}

/// The label set of the `http.server.request.body.size` histogram: the
/// common labels, the status code, and the matched route when present.
pub open spec fn spec_body_size_labels(
    status: u16,
    method: Seq<char>,
    scheme: Seq<char>,
    route: Option<Seq<char>>,
) -> Seq<(Seq<char>, Seq<char>)> {
    let base = spec_common_labels(method, scheme).push(
        ("http.response.status_code"@, spec_dec_str(status as nat)),
    );
    match route {
        Some(r) => base.push(("http.route"@, r)),
        None => base,
    }
}

/// Builds the common label set `{http.request.method, url.scheme}`.
pub fn common_http_server_labels(method: &String, scheme: &String) -> (r: Vec<Label>)
    ensures
        r.deep_view() == spec_common_labels(method@, scheme@),
{
    let mut r: Vec<Label> = Vec::new();
    r.push(Label { key: String::from_str("http.request.method"), value: method.clone() });
    r.push(Label { key: String::from_str("url.scheme"), value: scheme.clone() });
    proof {
        assert(r.deep_view() =~~= spec_common_labels(method@, scheme@));
    }
    r
}

/// Builds the label set of the active-requests counter. Entry and exit both
/// use this set, so the `+1` and `-1` additions of one request carry
/// pairwise-equal labels.
pub fn labels_server_active_request(method: &String, scheme: &String) -> (r: Vec<Label>)
    ensures
        r.deep_view() == spec_common_labels(method@, scheme@),
{
    common_http_server_labels(method, scheme)
}

} // verus!
