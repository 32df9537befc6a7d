//! The gateway proxy: what exactly is forwarded to the downstream
//! per-tenant service, and what comes back.
//!
//! The plan for an outbound request is computed here and performed by the
//! caller: the forwarded URI keeps the original query string verbatim,
//! only an explicit allow-list of inbound headers survives, and the two
//! tenant-identification headers are injected regardless of what the
//! inbound request carried — tenant context must not be spoofable, hence
//! the allow-list rather than pass-through. The downstream response's
//! status and headers are copied back verbatim. Request bodies are
//! buffered by the caller and forwarded unchanged; response bodies are
//! streamed by the caller and never pass through the plan — the asymmetry
//! is deliberate, response bodies may be large document content.

use vstd::prelude::*;
use vstd::string::StringExecFns;

use crate::strutil::hex_char;
use crate::strutil::push_char;
use crate::strutil::spec_hex_char;

verus! {

/// Sixteen to the given power.
pub open spec fn pow16(n: nat) -> int
    decreases n,
{
    if n == 0 {
        1
    } else {
        16 * pow16((n - 1) as nat)
    }
}

/// Sixteen to any power is positive.
proof fn lemma_pow16_pos(n: nat)
    ensures
        pow16(n) >= 1,
    decreases n,
{
    if n > 0 {
        lemma_pow16_pos((n - 1) as nat);
    }
}

/// The `i`-th hexadecimal digit, from the most significant, of the
/// 32-digit form of a 128-bit identifier.
pub open spec fn spec_uuid_nibble(id: u128, i: int) -> int {
    (id as int / pow16((31 - i) as nat)) % 16
}

/// Which hexadecimal digit stands at position `k` of the hyphenated
/// form.
pub open spec fn uuid_nibble_index(k: int) -> int {
    if k < 8 {
        k
    } else if k < 13 {
        k - 1
    } else if k < 18 {
        k - 2
    } else if k < 23 {
        k - 3
    } else {
        k - 4
    }
}

/// The character at position `k` of the hyphenated form.
pub open spec fn spec_uuid_char(id: u128, k: int) -> char {
    if k == 8 || k == 13 || k == 18 || k == 23 {
        '-'
    } else {
        spec_hex_char(spec_uuid_nibble(id, uuid_nibble_index(k)))
    }
}

/// The canonical string form of a tenant identifier: 32 lowercase
/// hexadecimal digits in five hyphen-separated groups of 8, 4, 4, 4 and
/// 12.
pub open spec fn spec_uuid_str(id: u128) -> Seq<char> {
    Seq::new(36, |k: int| spec_uuid_char(id, k))
}

/// How many hyphens stand before the digit with index `i`.
pub open spec fn uuid_hyphens_before(i: int) -> int {
    if i <= 8 {
        0
    } else if i <= 12 {
        1
    } else if i <= 16 {
        2
    } else if i <= 20 {
        3
    } else {
        4
    }
}

/// Format a tenant identifier in its canonical hyphenated string form.
pub fn uuid_string(id: u128) -> (r: String)
    ensures
        r@ == spec_uuid_str(id),
{
    let mut out = String::new();
    let mut p: u128 = 0x1000_0000_0000_0000_0000_0000_0000_0000u128;
    proof {
        assert(pow16(31) == 0x1000_0000_0000_0000_0000_0000_0000_0000) by {
            reveal_with_fuel(pow16, 33);
        }
    }
    let mut i: usize = 0;
    while i < 32
        invariant
            i <= 32,
            i < 32 ==> p as int == pow16((31 - i) as nat),
            out@.len() == i + uuid_hyphens_before(i as int),
            out@ == spec_uuid_str(id).take(i + uuid_hyphens_before(i as int)),
        decreases 32 - i,
    {
        let ghost s = spec_uuid_str(id);
        let ghost before: int = out@.len() as int;
        if i == 8 || i == 12 || i == 16 || i == 20 {
            proof {
                assert(spec_uuid_char(id, before) == '-');
                assert(s.take(before + 1) =~= s.take(before).push(s[before]));
            }
            push_char(&mut out, '-');
        }
        let ghost at: int = out@.len() as int;
        proof {
            lemma_pow16_pos((31 - i) as nat);
        }
        let d: u8 = ((id / p) % 16) as u8;
        let c = hex_char(d);
        proof {
            assert(uuid_nibble_index(at) == i as int);
            assert(spec_uuid_char(id, at) == spec_hex_char(spec_uuid_nibble(id, i as int)));
            assert(d as int == spec_uuid_nibble(id, i as int));
            assert(s.take(at + 1) =~= s.take(at).push(s[at]));
        }
        push_char(&mut out, c);
        if i < 31 {
            proof {
                assert(pow16((31 - i) as nat) == 16 * pow16((30 - i) as nat));
            }
            p = p / 16;
        }
        i = i + 1;
    }
    proof {
        assert(spec_uuid_str(id).take(36) =~= spec_uuid_str(id));
    }
    out
}

/// The forwarded URI: the downstream base URL, the path tail, and the
/// original query string verbatim, introduced by `?` when one exists.
pub open spec fn spec_forward_uri(
    base: Seq<char>,
    tail: Seq<char>,
    query: Option<Seq<char>>,
) -> Seq<char> {
    base + tail + match query {
        Option::Some(q) => seq!['?'] + q,
        Option::None => Seq::empty(),
    }
}

/// Build the forwarded URI.
pub fn build_forward_uri(base_url: &str, tail: &str, query: Option<&str>) -> (r: String)
    ensures
        r@ == spec_forward_uri(
            base_url@,
            tail@,
            match query {
                Option::Some(q) => Option::Some(q@),
                Option::None => Option::None,
            },
        ),
{
    let mut out = String::from_str(base_url);
    out.append(tail);
    match query {
        Option::Some(q) => {
            out.append("?");
            out.append(q);
            proof {
                reveal_strlit("?");
                assert("?"@ =~= seq!['?']);
                assert(out@ =~= spec_forward_uri(base_url@, tail@, Option::Some(q@)));
            }
        },
        Option::None => {
            proof {
                assert(out@ =~= spec_forward_uri(base_url@, tail@, Option::None));
            }
        },
    }
    out
}

/// Header sequences at the specification level: each name and value as
/// its character sequence.
pub open spec fn header_views(hs: Seq<(String, String)>) -> Seq<(Seq<char>, Seq<char>)> {
    hs.map_values(|h: (String, String)| (h.0@, h.1@))
}

/// The value of the first header with the given name, if any.
pub open spec fn spec_header_lookup(
    hs: Seq<(Seq<char>, Seq<char>)>,
    name: Seq<char>,
) -> Option<Seq<char>>
    decreases hs.len(),
{
    if hs.len() == 0 {
        Option::None
    } else if hs[0].0 == name {
        Option::Some(hs[0].1)
    } else {
        spec_header_lookup(hs.drop_first(), name)
    }
}

/// A lookup misses exactly when no header carries the name.
pub proof fn lemma_lookup_none(hs: Seq<(Seq<char>, Seq<char>)>, name: Seq<char>)
    ensures
        (spec_header_lookup(hs, name) is None) <==> (forall|j: int|
            0 <= j < hs.len() ==> (#[trigger] hs[j]).0 != name),
    decreases hs.len(),
{
    if hs.len() > 0 {
        lemma_lookup_none(hs.drop_first(), name);
        if spec_header_lookup(hs, name) is None {
            assert forall|j: int| 0 <= j < hs.len() implies (#[trigger] hs[j]).0 != name by {
                if j > 0 {
                    assert(hs.drop_first()[j - 1] == hs[j]);
                }
            }
        } else {
            if hs[0].0 != name {
                let j = choose|j: int|
                    0 <= j < hs.drop_first().len() && hs.drop_first()[j].0 == name;
                assert(hs[j + 1] == hs.drop_first()[j]);
            }
        }
    }
}

/// Looking a name up in a concatenation answers from the front part
/// first.
pub proof fn lemma_lookup_append(
    a: Seq<(Seq<char>, Seq<char>)>,
    b: Seq<(Seq<char>, Seq<char>)>,
    name: Seq<char>,
)
    ensures
        spec_header_lookup(a + b, name) == (match spec_header_lookup(a, name) {
            Option::Some(v) => Option::Some(v),
            Option::None => spec_header_lookup(b, name),
        }),
    decreases a.len(),
{
    if a.len() == 0 {
        assert(a + b =~= b);
    } else {
        assert((a + b)[0] == a[0]);
        assert((a + b).drop_first() =~= a.drop_first() + b);
        lemma_lookup_append(a.drop_first(), b, name);
    }
}

/// The first header with the given name, if any.
pub fn header_get<'a>(headers: &'a Vec<(String, String)>, name: &str) -> (r: Option<&'a String>)
    ensures
        match r {
            Some(v) => spec_header_lookup(header_views(headers@), name@) == Option::Some(v@),
            None => spec_header_lookup(header_views(headers@), name@) is None,
        },
{
    let ghost hv = header_views(headers@);
    let n: usize = headers.len();
    let mut i: usize = 0;
    proof {
        assert(hv.skip(0) =~= hv);
    }
    while i < n
        invariant
            i <= n,
            n == headers@.len(),
            hv == header_views(headers@),
            hv.len() == n,
            spec_header_lookup(hv, name@) == spec_header_lookup(hv.skip(i as int), name@),
        decreases n - i,
    {
        proof {
            assert(hv.skip(i as int)[0] == hv[i as int]);
            assert(hv.skip(i as int).drop_first() =~= hv.skip(i as int + 1));
        }
        if crate::strutil::str_eq(headers[i].0.as_str(), name) {
            return Some(&headers[i].1);
        }
        i = i + 1;
    }
    proof {
        assert(hv.skip(n as int) =~= Seq::<(Seq<char>, Seq<char>)>::empty());
    }
    None
}

/// What one allow-listed name contributes to the forwarded headers: the
/// inbound name and value when present, nothing otherwise.
pub open spec fn spec_pick(hs: Seq<(Seq<char>, Seq<char>)>, name: Seq<char>) -> Seq<
    (Seq<char>, Seq<char>),
> {
    match spec_header_lookup(hs, name) {
        Option::Some(v) => seq![(name, v)],
        Option::None => Seq::empty(),
    }
}

/// The headers of the forwarded request: of the inbound headers exactly
/// `accept`, `content-type` and `content-length` survive, each with its
/// inbound value; the two tenant-identification headers are appended with
/// the resolved tenant context, whatever the inbound request carried.
pub open spec fn spec_forward_headers(
    hs: Seq<(Seq<char>, Seq<char>)>,
    env: Seq<char>,
    id: u128,
) -> Seq<(Seq<char>, Seq<char>)> {
    spec_pick(hs, "accept"@) + spec_pick(hs, "content-type"@) + spec_pick(hs, "content-length"@)
        + seq![("x-tenant-env"@, env), ("x-tenant-id"@, spec_uuid_str(id))]
}

/// Compute the forwarded headers from the inbound ones.
pub fn forward_headers(inbound: &Vec<(String, String)>, env: &str, tenant_id: u128) -> (r: Vec<
    (String, String),
>)
    ensures
        header_views(r@) == spec_forward_headers(header_views(inbound@), env@, tenant_id),
{
    let ghost hv = header_views(inbound@);
    let mut out: Vec<(String, String)> = Vec::new();
    match header_get(inbound, "accept") {
        Option::Some(v) => {
            out.push((String::from_str("accept"), v.clone()));
        },
        Option::None => {},
    }
    proof {
        assert(header_views(out@) =~= spec_pick(hv, "accept"@));
    }
    match header_get(inbound, "content-type") {
        Option::Some(v) => {
            out.push((String::from_str("content-type"), v.clone()));
        },
        Option::None => {},
    }
    proof {
        assert(header_views(out@) =~= spec_pick(hv, "accept"@) + spec_pick(hv, "content-type"@));
    }
    match header_get(inbound, "content-length") {
        Option::Some(v) => {
            out.push((String::from_str("content-length"), v.clone()));
        },
        Option::None => {},
    }
    proof {
        assert(header_views(out@) =~= spec_pick(hv, "accept"@) + spec_pick(hv, "content-type"@)
            + spec_pick(hv, "content-length"@));
    }
    out.push((String::from_str("x-tenant-env"), String::from_str(env)));
    let id_text = uuid_string(tenant_id);
    out.push((String::from_str("x-tenant-id"), id_text));
    proof {
        assert(header_views(out@) =~= spec_forward_headers(hv, env@, tenant_id));
    }
    out
}

/// Whether a header name is on the inbound allow-list.
pub open spec fn spec_allowlisted(name: Seq<char>) -> bool {
    name == "accept"@ || name == "content-type"@ || name == "content-length"@
}

/// Whether a header name is one of the two injected identification
/// headers.
pub open spec fn spec_injected(name: Seq<char>) -> bool {
    name == "x-tenant-env"@ || name == "x-tenant-id"@
}

/// Law: the forwarded request carries only allow-listed inbound headers
/// and the two injected identification headers. Each allow-listed name is
/// forwarded exactly with its inbound value, and exactly when the inbound
/// request carried it; the injected tenant context is the resolved one,
/// whatever the inbound request carried; every other inbound header is
/// dropped.
pub proof fn lemma_forward_headers_allowlist(
    hs: Seq<(Seq<char>, Seq<char>)>,
    env: Seq<char>,
    id: u128,
)
    ensures
        forall|j: int|
            0 <= j < spec_forward_headers(hs, env, id).len() ==> spec_allowlisted(
                (#[trigger] spec_forward_headers(hs, env, id)[j]).0,
            ) || spec_injected(spec_forward_headers(hs, env, id)[j].0),
        spec_header_lookup(spec_forward_headers(hs, env, id), "accept"@) == spec_header_lookup(
            hs,
            "accept"@,
        ),
        spec_header_lookup(spec_forward_headers(hs, env, id), "content-type"@)
            == spec_header_lookup(hs, "content-type"@),
        spec_header_lookup(spec_forward_headers(hs, env, id), "content-length"@)
            == spec_header_lookup(hs, "content-length"@),
        spec_header_lookup(spec_forward_headers(hs, env, id), "x-tenant-env"@)
            == Option::Some(env),
        spec_header_lookup(spec_forward_headers(hs, env, id), "x-tenant-id"@) == Option::Some(
            spec_uuid_str(id),
        ),
        forall|name: Seq<char>|
            !spec_allowlisted(name) && !spec_injected(name) ==> #[trigger] spec_header_lookup(
                spec_forward_headers(hs, env, id),
                name,
            ) is None,
{
    reveal_with_fuel(spec_header_lookup, 4);
    reveal_strlit("accept");
    reveal_strlit("content-type");
    reveal_strlit("content-length");
    reveal_strlit("x-tenant-env");
    reveal_strlit("x-tenant-id");
    assert("accept"@.len() == 6);
    assert("content-type"@.len() == 12);
    assert("content-length"@.len() == 14);
    assert("x-tenant-env"@.len() == 12);
    assert("x-tenant-id"@.len() == 11);
    assert("content-type"@[0] == 'c' && "x-tenant-env"@[0] == 'x');
    let pa = spec_pick(hs, "accept"@);
    let pt = spec_pick(hs, "content-type"@);
    let pl = spec_pick(hs, "content-length"@);
    let inj = seq![("x-tenant-env"@, env), ("x-tenant-id"@, spec_uuid_str(id))];
    let f = spec_forward_headers(hs, env, id);
    assert(f == pa + pt + pl + inj);
    assert forall|j: int| 0 <= j < f.len() implies spec_allowlisted((#[trigger] f[j]).0)
        || spec_injected(f[j].0) by {
        assert(f[j] == (pa + pt + pl + inj)[j]);
    }
    lemma_lookup_singletons(pa, hs, "accept"@);
    lemma_lookup_singletons(pt, hs, "content-type"@);
    lemma_lookup_singletons(pl, hs, "content-length"@);
    lemma_lookup_append(pa + pt + pl, inj, "accept"@);
    lemma_lookup_append(pa + pt, pl, "accept"@);
    lemma_lookup_append(pa, pt, "accept"@);
    lemma_lookup_append(pa + pt + pl, inj, "content-type"@);
    lemma_lookup_append(pa + pt, pl, "content-type"@);
    lemma_lookup_append(pa, pt, "content-type"@);
    lemma_lookup_append(pa + pt + pl, inj, "content-length"@);
    lemma_lookup_append(pa + pt, pl, "content-length"@);
    lemma_lookup_append(pa, pt, "content-length"@);
    lemma_lookup_append(pa + pt + pl, inj, "x-tenant-env"@);
    lemma_lookup_append(pa + pt, pl, "x-tenant-env"@);
    lemma_lookup_append(pa, pt, "x-tenant-env"@);
    lemma_lookup_append(pa + pt + pl, inj, "x-tenant-id"@);
    lemma_lookup_append(pa + pt, pl, "x-tenant-id"@);
    lemma_lookup_append(pa, pt, "x-tenant-id"@);
    assert(inj.drop_first() =~= seq![("x-tenant-id"@, spec_uuid_str(id))]);
    assert(spec_header_lookup(inj, "x-tenant-env"@) == Option::Some(env));
    assert(spec_header_lookup(inj, "x-tenant-id"@) == Option::Some(spec_uuid_str(id)));
    assert(spec_header_lookup(inj, "accept"@) is None);
    assert(spec_header_lookup(inj, "content-type"@) is None);
    assert(spec_header_lookup(inj, "content-length"@) is None);
    assert forall|name: Seq<char>|
        !spec_allowlisted(name) && !spec_injected(name) implies #[trigger] spec_header_lookup(
        f,
        name,
    ) is None by {
        lemma_lookup_none(f, name);
    }
}

/// A pick is empty or the one header with the picked name.
proof fn lemma_lookup_singletons(p: Seq<(Seq<char>, Seq<char>)>, hs: Seq<(Seq<char>, Seq<char>)>, name: Seq<char>)
    requires
        p == spec_pick(hs, name),
    ensures
        forall|n2: Seq<char>|
            #[trigger] spec_header_lookup(p, n2) == (if n2 == name {
                spec_header_lookup(hs, name)
            } else {
                Option::<Seq<char>>::None
            }),
{
    reveal_with_fuel(spec_header_lookup, 3);
    assert forall|n2: Seq<char>| true implies #[trigger] spec_header_lookup(p, n2) == (if n2
        == name {
        spec_header_lookup(hs, name)
    } else {
        Option::<Seq<char>>::None
    }) by {
        match spec_header_lookup(hs, name) {
            Option::Some(v) => {
                assert(p == seq![(name, v)]);
                assert(p[0] == (name, v));
                assert(p.drop_first() =~= Seq::<(Seq<char>, Seq<char>)>::empty());
            },
            Option::None => {
                assert(p.len() == 0);
            },
        }
    }
}

/// The plan for the forwarded request: the rebuilt URI, the filtered and
/// injected headers, and the inbound body, buffered in full and forwarded
/// unchanged.
#[derive(Debug)]
pub struct ForwardPlan {
    /// The downstream URI.
    pub uri: String,
    /// The forwarded headers.
    pub headers: Vec<(String, String)>,
    /// The forwarded body: the inbound body, unchanged.
    pub body: Vec<u8>,
}

/// Plan the forwarded request for a tenant-scoped inbound request.
pub fn plan_forward(
    base_url: &str,
    tail: &str,
    query: Option<&str>,
    env: &str,
    tenant_id: u128,
    inbound_headers: &Vec<(String, String)>,
    body: Vec<u8>,
) -> (p: ForwardPlan)
    ensures
        p.uri@ == spec_forward_uri(
            base_url@,
            tail@,
            match query {
                Option::Some(q) => Option::Some(q@),
                Option::None => Option::None,
            },
        ),
        header_views(p.headers@) == spec_forward_headers(
            header_views(inbound_headers@),
            env@,
            tenant_id,
        ),
        p.body == body,
{
    let uri = build_forward_uri(base_url, tail, query);
    let headers = forward_headers(inbound_headers, env, tenant_id);
    ForwardPlan { uri, headers, body }
}

/// The plan for the response handed back to the original caller: the
/// downstream status and every downstream header, copied verbatim. The
/// body is streamed by the caller and does not pass through the plan.
#[derive(Debug)]
pub struct GatewayResponse {
    /// The downstream status code, unchanged.
    pub status: u16,
    /// The downstream response headers, all of them, in order.
    pub headers: Vec<(String, String)>,
}

/// Plan the response: the status code and all response headers pass
/// through verbatim.
pub fn plan_response(status: u16, headers: &Vec<(String, String)>) -> (r: GatewayResponse)
    ensures
        r.status == status,
        r.headers@ == headers@,
{
    let mut copied: Vec<(String, String)> = Vec::new();
    let n: usize = headers.len();
    let mut i: usize = 0;
    while i < n
        invariant
            i <= n,
            n == headers@.len(),
            copied@ == headers@.take(i as int),
        decreases n - i,
    {
        let name = headers[i].0.clone();
        let value = headers[i].1.clone();
        copied.push((name, value));
        proof {
            assert(copied@ =~= headers@.take(i as int + 1));
        }
        i = i + 1;
    }
    proof {
        assert(headers@.take(n as int) =~= headers@);
    }
    GatewayResponse { status, headers: copied }
}

} // verus!
