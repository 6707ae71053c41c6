//! Which files of a configuration a privileged process must trust.

use crate::collections::clone_strings;
use crate::config::load::{loads_pkcs11_module, module_loaded};
use crate::config::raw::{
    RawConfig, RawCryptoBackend, RawMode, RawPkcs12Source, RawRevocation, RawTrust, RawTrustOverride,
};
use crate::text::cat4;
use vstd::prelude::*;

verus! {

/// A path and the name of the key that it stands in.
#[derive(Debug)]
pub struct PrivilegedPath {
    /// What the path is for.
    pub field: &'static str,
    /// The path.
    pub path: String,
}

/// A path and its key, as contracts speak of them.
pub open spec fn path_model(p: PrivilegedPath) -> (Seq<char>, Seq<char>) {
    (p.field@, p.path@)
}

/// The paths and keys of a sequence.
pub open spec fn path_models(v: Seq<PrivilegedPath>) -> Seq<(Seq<char>, Seq<char>)> {
    v.map_values(|p: PrivilegedPath| path_model(p))
}

/// Paths that all stand in the same key.
pub open spec fn under(field: Seq<char>, paths: Seq<String>) -> Seq<(Seq<char>, Seq<char>)> {
    paths.map_values(|p: String| (field, p@))
}

/// An optional path and its key.
pub open spec fn under_opt(field: Seq<char>, path: Option<String>) -> Seq<(Seq<char>, Seq<char>)> {
    match path {
        Some(p) => seq![(field, p@)],
        None => Seq::empty(),
    }
}

/// The CRL paths of a section, none where it is absent.
pub open spec fn crl_paths(r: Option<RawRevocation>) -> Seq<String> {
    match r {
        Some(s) => s.crl_paths@,
        None => Seq::empty(),
    }
}

/// The paths of the first trust overrides.
pub open spec fn override_paths(v: Seq<RawTrustOverride>) -> Seq<(Seq<char>, Seq<char>)>
    decreases v.len(),
{
    if v.len() == 0 {
        Seq::empty()
    } else {
        override_paths(v.drop_last()) + under("trust_override anchor"@, v.last().anchors@) + under(
            "trust_override intermediate"@,
            v.last().intermediates@,
        )
    }
}

/// Every path that must be under the control of root, in the order in which they are checked.
/// The module counts only where it is loaded.
pub open spec fn privileged_list(raw: RawConfig) -> Seq<(Seq<char>, Seq<char>)> {
    trust_list(raw.trust) + override_paths(raw.trust_override@) + module_list(raw) + under_opt(
        "gost_engine_path"@,
        raw.gost_engine_path,
    )
}

/// The paths of a trust section.
pub open spec fn trust_list(trust: RawTrust) -> Seq<(Seq<char>, Seq<char>)> {
    under("trust anchor"@, trust.anchors@) + under("trust intermediate"@, trust.intermediates@)
        + under("trust CRL"@, crl_paths(trust.revocation))
}

/// The path of the module, where it is loaded.
pub open spec fn module_list(raw: RawConfig) -> Seq<(Seq<char>, Seq<char>)> {
    if module_loaded(raw) {
        under_opt("pkcs11_module"@, raw.pkcs11_module)
    } else {
        Seq::empty()
    }
}

fn push_all(out: &mut Vec<PrivilegedPath>, field: &'static str, paths: &Vec<String>)
    ensures
        path_models(final(out)@) == path_models(old(out)@) + under(field@, paths@),
{
    let mut i: usize = 0;
    let ghost start = path_models(out@);
    assert(start + under(field@, paths@).take(0) =~= start);
    while i < paths.len()
        invariant
            i <= paths@.len(),
            path_models(out@) == start + under(field@, paths@).take(i as int),
        decreases paths@.len() - i,
    {
        let ghost before = out@;
        out.push(PrivilegedPath { field, path: paths[i].clone() });
        proof {
            let u = under(field@, paths@);
            assert(u.take(i + 1) =~= u.take(i as int).push(u[i as int]));
            assert(path_models(out@) =~= path_models(before).push((field@, paths@[i as int]@)));
            assert(path_models(out@) =~= start + u.take(i + 1));
        }
        i = i + 1;
    }
    assert(under(field@, paths@).take(paths@.len() as int) =~= under(field@, paths@));
}

fn push_opt(out: &mut Vec<PrivilegedPath>, field: &'static str, path: &Option<String>)
    ensures
        path_models(final(out)@) == path_models(old(out)@) + under_opt(field@, *path),
{
    if let Some(p) = path {
        out.push(PrivilegedPath { field, path: p.clone() });
    }
    assert(path_models(out@) =~= path_models(old(out)@) + under_opt(field@, *path));
}

/// Every path that must be under the control of root, in the order in which they are checked.
pub fn privileged_paths(raw: &RawConfig) -> (r: Vec<PrivilegedPath>)
    ensures
        path_models(r@) == privileged_list(*raw),
{
    let mut out: Vec<PrivilegedPath> = Vec::new();
    assert(path_models(out@) =~= Seq::<(Seq<char>, Seq<char>)>::empty());
    push_all(&mut out, "trust anchor", &raw.trust.anchors);
    assert(path_models(out@) =~= under("trust anchor"@, raw.trust.anchors@));
    push_all(&mut out, "trust intermediate", &raw.trust.intermediates);
    let ghost before_crl = path_models(out@);
    match &raw.trust.revocation {
        Some(s) => {
            push_all(&mut out, "trust CRL", &s.crl_paths);
        },
        None => {
            assert(before_crl + under("trust CRL"@, Seq::<String>::empty()) =~= before_crl);
        },
    }
    let ghost base = path_models(out@);
    let mut i: usize = 0;
    assert(raw.trust_override@.take(0) =~= Seq::<RawTrustOverride>::empty());
    assert(base + override_paths(raw.trust_override@.take(0)) =~= base);
    while i < raw.trust_override.len()
        invariant
            i <= raw.trust_override@.len(),
            path_models(out@) == base + override_paths(raw.trust_override@.take(i as int)),
        decreases raw.trust_override@.len() - i,
    {
        let ghost here = raw.trust_override@.take(i as int);
        push_all(&mut out, "trust_override anchor", &raw.trust_override[i].anchors);
        push_all(&mut out, "trust_override intermediate", &raw.trust_override[i].intermediates);
        proof {
            let next = raw.trust_override@.take(i + 1);
            assert(next.drop_last() =~= here);
            assert(path_models(out@) =~= base + override_paths(next));
        }
        i = i + 1;
    }
    assert(raw.trust_override@.take(raw.trust_override@.len() as int) =~= raw.trust_override@);
    let ghost before_module = path_models(out@);
    if loads_pkcs11_module(raw) {
        push_opt(&mut out, "pkcs11_module", &raw.pkcs11_module);
    } else {
        assert(before_module + Seq::<(Seq<char>, Seq<char>)>::empty() =~= before_module);
    }
    push_opt(&mut out, "gost_engine_path", &raw.gost_engine_path);
    out
}

/// The words for a path that is not under the control of root.
pub open spec fn not_root_controlled(field: Seq<char>, path: Seq<char>) -> Seq<char> {
    field + " path "@ + path + " is not root-controlled"@
}

/// The words for a path that is not under the control of root.
pub fn not_root_controlled_text(field: &str, path: &str) -> (r: String)
    ensures
        r@ == not_root_controlled(field@, path@),
{
    cat4(field, " path ", path, " is not root-controlled")
}

/// The engine that a process may load before the rest of the configuration is usable: none
/// beside another backend than OpenSSL.
pub open spec fn engine_path(raw: RawConfig) -> Option<String> {
    if raw.crypto_backend == RawCryptoBackend::Openssl {
        raw.gost_engine_path
    } else {
        None
    }
}

/// The engine that a process may load before the rest of the configuration is usable.
pub fn engine_path_to_load(raw: &RawConfig) -> (r: Option<String>)
    ensures
        r == engine_path(*raw),
{
    if matches!(raw.crypto_backend, RawCryptoBackend::Openssl) {
        match &raw.gost_engine_path {
            Some(p) => Some(p.clone()),
            None => None,
        }
    } else {
        None
    }
}

// --- replacing the paths by their validated targets -------------------------

/// The number of paths that a configuration holds.
pub open spec fn path_count(raw: RawConfig) -> nat {
    privileged_list(raw).len()
}

/// Whether two overrides differ in their paths at most.
pub open spec fn same_override(a: RawTrustOverride, b: RawTrustOverride) -> bool {
    &&& a.when_host_id_in@ == b.when_host_id_in@
    &&& a.anchors@.len() == b.anchors@.len()
    &&& a.intermediates@.len() == b.intermediates@.len()
}

/// Whether two trust sections differ in their paths at most.
pub open spec fn same_trust(a: RawTrust, b: RawTrust) -> bool {
    &&& b == (RawTrust {
        anchors: b.anchors,
        intermediates: b.intermediates,
        revocation: b.revocation,
        ..a
    })
    &&& b.anchors@.len() == a.anchors@.len()
    &&& b.intermediates@.len() == a.intermediates@.len()
    &&& match (a.revocation, b.revocation) {
        (Some(x), Some(y)) => y == (RawRevocation { crl_paths: y.crl_paths, ..x })
            && y.crl_paths@.len() == x.crl_paths@.len(),
        (None, None) => true,
        _ => false,
    }
}

/// Whether two configurations differ in their privileged paths at most.
pub open spec fn same_but_paths(a: RawConfig, b: RawConfig) -> bool {
    &&& b == RawConfig {
        trust: b.trust,
        trust_override: b.trust_override,
        pkcs11_module: b.pkcs11_module,
        gost_engine_path: b.gost_engine_path,
        ..a
    }
    &&& same_trust(a.trust, b.trust)
    &&& b.trust_override@.len() == a.trust_override@.len()
    &&& forall|i: int|
        0 <= i < a.trust_override@.len() ==> same_override(
            #[trigger] a.trust_override@[i],
            b.trust_override@[i],
        )
    &&& a.pkcs11_module is Some <==> b.pkcs11_module is Some
    &&& !module_loaded(a) ==> b.pkcs11_module == a.pkcs11_module
    &&& a.gost_engine_path is Some <==> b.gost_engine_path is Some
}

/// The paths of a list, without their keys.
pub open spec fn only_paths(v: Seq<(Seq<char>, Seq<char>)>) -> Seq<Seq<char>> {
    v.map_values(|p: (Seq<char>, Seq<char>)| p.1)
}

fn take_paths(all: &Vec<String>, from: usize, n: usize) -> (r: Vec<String>)
    requires
        from + n <= all@.len(),
    ensures
        r@ == all@.subrange(from as int, from + n),
{
    let mut out: Vec<String> = Vec::new();
    let total: usize = all.len();
    let mut i: usize = 0;
    assert(all@.subrange(from as int, from as int) =~= Seq::<String>::empty());
    while i < n
        invariant
            total == all@.len(),
            i <= n,
            from + n <= total,
            out@ == all@.subrange(from as int, from + i),
        decreases n - i,
    {
        out.push(all[from + i].clone());
        assert(all@.subrange(from as int, from + i + 1) =~= all@.subrange(
            from as int,
            from + i,
        ).push(all@[from + i]));
        i = i + 1;
    }
    out
}

proof fn lemma_only_paths_add(a: Seq<(Seq<char>, Seq<char>)>, b: Seq<(Seq<char>, Seq<char>)>)
    ensures
        only_paths(a + b) == only_paths(a) + only_paths(b),
{
    assert(only_paths(a + b) =~= only_paths(a) + only_paths(b));
}

proof fn lemma_only_paths_under(field: Seq<char>, v: Seq<String>)
    ensures
        only_paths(under(field, v)) == crate::collections::texts(v),
        under(field, v).len() == v.len(),
{
    assert(only_paths(under(field, v)) =~= crate::collections::texts(v));
}

proof fn lemma_texts_cut(v: Seq<String>, i: int, j: int, k: int)
    requires
        0 <= i <= j <= k <= v.len(),
    ensures
        crate::collections::texts(v.subrange(i, j)) + crate::collections::texts(v.subrange(j, k))
            == crate::collections::texts(v.subrange(i, k)),
{
    assert(crate::collections::texts(v.subrange(i, j)) + crate::collections::texts(
        v.subrange(j, k),
    ) =~= crate::collections::texts(v.subrange(i, k)));
}

fn replace_overrides(
    overrides: Vec<RawTrustOverride>,
    all: &Vec<String>,
    from: usize,
) -> (r: (Vec<RawTrustOverride>, usize))
    requires
        from + override_paths(overrides@).len() <= all@.len(),
    ensures
        r.1 == from + override_paths(overrides@).len(),
        r.0@.len() == overrides@.len(),
        forall|i: int|
            0 <= i < overrides@.len() ==> same_override(#[trigger] overrides@[i], r.0@[i]),
        only_paths(override_paths(r.0@)) == crate::collections::texts(
            all@.subrange(from as int, r.1 as int),
        ),
{
    let mut out: Vec<RawTrustOverride> = Vec::new();
    let total: usize = all.len();
    let mut at: usize = from;
    let mut i: usize = 0;
    proof {
        assert(overrides@.take(0) =~= Seq::<RawTrustOverride>::empty());
        assert(only_paths(override_paths(out@)) =~= crate::collections::texts(
            all@.subrange(from as int, from as int),
        ));
    }
    while i < overrides.len()
        invariant
            total == all@.len(),
            i <= overrides@.len(),
            from + override_paths(overrides@).len() <= all@.len(),
            at == from + override_paths(overrides@.take(i as int)).len(),
            at <= total,
            out@.len() == i,
            forall|k: int| 0 <= k < i ==> same_override(#[trigger] overrides@[k], out@[k]),
            only_paths(override_paths(out@)) == crate::collections::texts(
                all@.subrange(from as int, at as int),
            ),
        decreases overrides@.len() - i,
    {
        let o = &overrides[i];
        let a: usize = o.anchors.len();
        let b: usize = o.intermediates.len();
        let ghost next = overrides@.take(i + 1);
        proof {
            assert(next.drop_last() =~= overrides@.take(i as int));
            lemma_override_paths_len(overrides@, i + 1);
        }
        let anchors = take_paths(all, at, a);
        let intermediates = take_paths(all, at + a, b);
        let ghost before = out@;
        out.push(
            RawTrustOverride {
                when_host_id_in: clone_strings(&o.when_host_id_in),
                anchors,
                intermediates,
            },
        );
        proof {
            assert(out@.drop_last() =~= before);
            let p = override_paths(before);
            let q = under("trust_override anchor"@, out@.last().anchors@);
            let r = under("trust_override intermediate"@, out@.last().intermediates@);
            lemma_only_paths_add(p, q);
            lemma_only_paths_add(p + q, r);
            lemma_only_paths_under("trust_override anchor"@, out@.last().anchors@);
            lemma_only_paths_under("trust_override intermediate"@, out@.last().intermediates@);
            lemma_texts_cut(all@, from as int, at as int, at + a);
            lemma_texts_cut(all@, from as int, at + a, at + a + b);
        }
        at = at + a + b;
        i = i + 1;
    }
    assert(overrides@.take(overrides@.len() as int) =~= overrides@);
    (out, at)
}

proof fn lemma_override_paths_len(v: Seq<RawTrustOverride>, i: int)
    requires
        0 <= i <= v.len(),
    ensures
        override_paths(v.take(i)).len() <= override_paths(v).len(),
    decreases v.len(),
{
    if i == v.len() {
        assert(v.take(i) =~= v);
    } else {
        assert(v.drop_last().take(i) =~= v.take(i));
        lemma_override_paths_len(v.drop_last(), i);
    }
}

fn replace_trust(trust: RawTrust, all: &Vec<String>) -> (r: (RawTrust, usize))
    requires
        trust_list(trust).len() <= all@.len(),
    ensures
        r.1 == trust_list(trust).len(),
        same_trust(trust, r.0),
        only_paths(trust_list(r.0)) == crate::collections::texts(all@.subrange(0, r.1 as int)),
{
    let total: usize = all.len();
    let a: usize = trust.anchors.len();
    let b: usize = trust.intermediates.len();
    proof {
        lemma_only_paths_under("trust anchor"@, trust.anchors@);
        lemma_only_paths_under("trust intermediate"@, trust.intermediates@);
        lemma_only_paths_under("trust CRL"@, crl_paths(trust.revocation));
    }
    let anchors = take_paths(all, 0, a);
    let intermediates = take_paths(all, a, b);
    let (revocation, end) = match trust.revocation {
        Some(section) => {
            let c: usize = section.crl_paths.len();
            let crl_paths = take_paths(all, a + b, c);
            (Some(RawRevocation { crl_paths, ..section }), a + b + c)
        },
        None => (None, a + b),
    };
    let ghost crls = crl_paths(revocation);
    assert(crls =~= all@.subrange(a + b, end as int));
    proof {
        let p1 = under("trust anchor"@, anchors@);
        let p2 = under("trust intermediate"@, intermediates@);
        let p3 = under("trust CRL"@, crls);
        lemma_only_paths_under("trust anchor"@, anchors@);
        lemma_only_paths_under("trust intermediate"@, intermediates@);
        lemma_only_paths_under("trust CRL"@, crls);
        lemma_only_paths_add(p1, p2);
        lemma_only_paths_add(p1 + p2, p3);
        lemma_texts_cut(all@, 0, a as int, a + b);
        lemma_texts_cut(all@, 0, a + b, end as int);
    }
    (RawTrust { anchors, intermediates, revocation, ..trust }, end)
}

fn replace_opt(path: Option<String>, counts: bool, all: &Vec<String>, from: usize) -> (r: (
    Option<String>,
    usize,
))
    requires
        from + (if counts && path is Some { 1int } else { 0 }) <= all@.len(),
    ensures
        r.0 is Some <==> path is Some,
        !counts ==> r.0 == path && r.1 == from,
        counts && path is Some ==> r.1 == from + 1 && r.0 == Some(all@[from as int]),
        counts && path is None ==> r.1 == from,
{
    let total: usize = all.len();
    match path {
        Some(p) => if counts {
            (Some(all[from].clone()), from + 1)
        } else {
            (Some(p), from)
        },
        None => (None, from),
    }
}

proof fn lemma_four_pieces(
    c: Seq<String>,
    p1: Seq<(Seq<char>, Seq<char>)>,
    e1: int,
    p2: Seq<(Seq<char>, Seq<char>)>,
    e2: int,
    p3: Seq<(Seq<char>, Seq<char>)>,
    e3: int,
    p4: Seq<(Seq<char>, Seq<char>)>,
)
    requires
        0 <= e1 <= e2 <= e3 <= c.len(),
        only_paths(p1) == crate::collections::texts(c.subrange(0, e1)),
        only_paths(p2) == crate::collections::texts(c.subrange(e1, e2)),
        only_paths(p3) == crate::collections::texts(c.subrange(e2, e3)),
        only_paths(p4) == crate::collections::texts(c.subrange(e3, c.len() as int)),
    ensures
        only_paths(p1 + p2 + p3 + p4) == crate::collections::texts(c),
{
    lemma_only_paths_add(p1, p2);
    lemma_only_paths_add(p1 + p2, p3);
    lemma_only_paths_add(p1 + p2 + p3, p4);
    lemma_texts_cut(c, 0, e1, e2);
    lemma_texts_cut(c, 0, e2, e3);
    lemma_texts_cut(c, 0, e3, c.len() as int);
    assert(c.subrange(0, c.len() as int) =~= c);
}

proof fn lemma_only_paths_opt(field: Seq<char>, path: Option<String>, c: Seq<String>, from: int)
    requires
        0 <= from <= c.len(),
        path matches Some(p) ==> from < c.len() && p == c[from],
    ensures
        only_paths(under_opt(field, path)) == crate::collections::texts(
            c.subrange(from, from + under_opt(field, path).len()),
        ),
{
    assert(only_paths(under_opt(field, path)) =~= crate::collections::texts(
        c.subrange(from, from + under_opt(field, path).len()),
    ));
}

/// Puts the validated targets in the place of the privileged paths, in the order of
/// [`privileged_paths`]. Nothing else changes.
pub fn with_canonical_paths(raw: RawConfig, canonical: &Vec<String>) -> (r: RawConfig)
    requires
        canonical@.len() == path_count(raw),
    ensures
        same_but_paths(raw, r),
        only_paths(privileged_list(r)) == crate::collections::texts(canonical@),
{
    let total: usize = canonical.len();
    let loaded = loads_pkcs11_module(&raw);
    let (trust, at_overrides) = replace_trust(raw.trust, canonical);
    let (trust_override, at_module) = replace_overrides(
        raw.trust_override,
        canonical,
        at_overrides,
    );
    let (pkcs11_module, at_gost) = replace_opt(raw.pkcs11_module, loaded, canonical, at_module);
    let (gost_engine_path, _) = replace_opt(raw.gost_engine_path, true, canonical, at_gost);
    let out = RawConfig { trust, trust_override, pkcs11_module, gost_engine_path, ..raw };
    proof {
        let c = canonical@;
        let p3 = module_list(out);
        let p4 = under_opt("gost_engine_path"@, gost_engine_path);
        if loaded {
            lemma_only_paths_opt("pkcs11_module"@, pkcs11_module, c, at_module as int);
        } else {
            assert(only_paths(p3) =~= crate::collections::texts(
                c.subrange(at_module as int, at_gost as int),
            ));
        }
        lemma_only_paths_opt("gost_engine_path"@, gost_engine_path, c, at_gost as int);
        lemma_four_pieces(
            c,
            trust_list(trust),
            at_overrides as int,
            override_paths(trust_override@),
            at_module as int,
            p3,
            at_gost as int,
            p4,
        );
    }
    out
}

/// Every file that a privileged process takes trust from is listed: each anchor, intermediate and
/// CRL, also of the overrides, the engine, and the module where one is loaded.
pub proof fn every_trusted_file_is_listed(raw: RawConfig, i: int, k: int)
    ensures
        0 <= i < raw.trust.anchors@.len() ==> privileged_list(raw).contains(
            ("trust anchor"@, raw.trust.anchors@[i]@),
        ),
        0 <= i < raw.trust.intermediates@.len() ==> privileged_list(raw).contains(
            ("trust intermediate"@, raw.trust.intermediates@[i]@),
        ),
        (raw.trust.revocation matches Some(r) && 0 <= i < r.crl_paths@.len()) ==> privileged_list(
            raw,
        ).contains(("trust CRL"@, raw.trust.revocation->0.crl_paths@[i]@)),
        raw.gost_engine_path matches Some(p) ==> privileged_list(raw).contains(
            ("gost_engine_path"@, p@),
        ),
        (raw.mode == RawMode::Pkcs11 || raw.pkcs12_source == RawPkcs12Source::TokenObject) ==> (
        raw.pkcs11_module matches Some(p) ==> privileged_list(raw).contains(
            ("pkcs11_module"@, p@),
        )),
        0 <= k < raw.trust_override@.len() && 0 <= i < raw.trust_override@[k].anchors@.len()
            ==> privileged_list(raw).contains(
            ("trust_override anchor"@, raw.trust_override@[k].anchors@[i]@),
        ),
        0 <= k < raw.trust_override@.len() && 0 <= i < raw.trust_override@[k].intermediates@.len()
            ==> privileged_list(raw).contains(
            ("trust_override intermediate"@, raw.trust_override@[k].intermediates@[i]@),
        ),
{
    let t = raw.trust;
    let a = under("trust anchor"@, t.anchors@);
    let b = under("trust intermediate"@, t.intermediates@);
    let c = under("trust CRL"@, crl_paths(t.revocation));
    let o = override_paths(raw.trust_override@);
    let m = module_list(raw);
    let g = under_opt("gost_engine_path"@, raw.gost_engine_path);
    let all = privileged_list(raw);
    assert(all =~= a + b + c + o + m + g);
    if 0 <= i < t.anchors@.len() {
        assert(all[i] == a[i]);
    }
    if 0 <= i < t.intermediates@.len() {
        assert(all[a.len() + i] == b[i]);
    }
    if t.revocation matches Some(r) && 0 <= i < r.crl_paths@.len() {
        assert(all[a.len() + b.len() + i] == c[i]);
    }
    let base = a.len() + b.len() + c.len();
    if 0 <= k < raw.trust_override@.len() {
        lemma_override_listed(raw.trust_override@, k, i);
        if 0 <= i < raw.trust_override@[k].anchors@.len() {
            let want = ("trust_override anchor"@, raw.trust_override@[k].anchors@[i]@);
            let n = choose|n: int| 0 <= n < o.len() && o[n] == want;
            assert(all[base + n] == want);
        }
        if 0 <= i < raw.trust_override@[k].intermediates@.len() {
            let want = ("trust_override intermediate"@, raw.trust_override@[k].intermediates@[i]@);
            let n = choose|n: int| 0 <= n < o.len() && o[n] == want;
            assert(all[base + n] == want);
        }
    }
    if let Some(p) = raw.gost_engine_path {
        assert(all[(base + o.len() + m.len()) as int] == ("gost_engine_path"@, p@));
    }
    if raw.mode == RawMode::Pkcs11 || raw.pkcs12_source == RawPkcs12Source::TokenObject {
        if let Some(p) = raw.pkcs11_module {
            assert(all[(base + o.len()) as int] == ("pkcs11_module"@, p@));
        }
    }
}

proof fn lemma_override_listed(v: Seq<RawTrustOverride>, k: int, i: int)
    requires
        0 <= k < v.len(),
    ensures
        0 <= i < v[k].anchors@.len() ==> override_paths(v).contains(
            ("trust_override anchor"@, v[k].anchors@[i]@),
        ),
        0 <= i < v[k].intermediates@.len() ==> override_paths(v).contains(
            ("trust_override intermediate"@, v[k].intermediates@[i]@),
        ),
    decreases v.len(),
{
    let p = v.drop_last();
    let before = override_paths(p);
    let a = under("trust_override anchor"@, v.last().anchors@);
    let b = under("trust_override intermediate"@, v.last().intermediates@);
    let all = override_paths(v);
    if k < p.len() {
        lemma_override_listed(p, k, i);
        if 0 <= i < v[k].anchors@.len() {
            let want = ("trust_override anchor"@, v[k].anchors@[i]@);
            let n = choose|n: int| 0 <= n < before.len() && before[n] == want;
            assert(all[n] == want);
        }
        if 0 <= i < v[k].intermediates@.len() {
            let want = ("trust_override intermediate"@, v[k].intermediates@[i]@);
            let n = choose|n: int| 0 <= n < before.len() && before[n] == want;
            assert(all[n] == want);
        }
    } else {
        if 0 <= i < v[k].anchors@.len() {
            assert(all[before.len() + i] == a[i]);
        }
        if 0 <= i < v[k].intermediates@.len() {
            assert(all[before.len() + a.len() + i] == b[i]);
        }
    }
}

/// A module that is not loaded is not listed, and the engine is loaded only under OpenSSL.
pub proof fn what_is_not_loaded_need_not_be_trusted(raw: RawConfig)
    ensures
        raw.mode != RawMode::Pkcs11 && raw.pkcs12_source != RawPkcs12Source::TokenObject
            ==> module_list(raw).len() == 0,
        raw.crypto_backend == RawCryptoBackend::Openssl ==> engine_path(raw) == raw.gost_engine_path,
        raw.crypto_backend != RawCryptoBackend::Openssl ==> engine_path(raw) is None,
{
}

/// Resolving the privileged paths changes nothing but these paths: none is added or lost, and
/// whatever else the configuration says stays.
pub proof fn nothing_but_paths_changes(a: RawConfig, b: RawConfig, i: int)
    requires
        same_but_paths(a, b),
    ensures
        b.mode == a.mode && b.crypto_backend == a.crypto_backend && b.pkcs12_source
            == a.pkcs12_source,
        b.hooks == a.hooks && b.user_mapping == a.user_mapping && b.host_identity
            == a.host_identity,
        b.roles == a.roles && b.tags == a.tags && b.mac == a.mac && b.monitor == a.monitor,
        b.trust.max_chain_depth == a.trust.max_chain_depth && b.trust.pinning == a.trust.pinning
            && b.trust.allowed_signature_algorithms == a.trust.allowed_signature_algorithms,
        b.trust.anchors@.len() == a.trust.anchors@.len(),
        b.trust.intermediates@.len() == a.trust.intermediates@.len(),
        b.trust.revocation is Some <==> a.trust.revocation is Some,
        a.trust.revocation matches Some(x) ==> (b.trust.revocation matches Some(y) && y.mode
            == x.mode && y.crl_paths@.len() == x.crl_paths@.len() && y.ocsp_responder_url
            == x.ocsp_responder_url),
        b.trust_override@.len() == a.trust_override@.len(),
        0 <= i < a.trust_override@.len() ==> b.trust_override@[i].when_host_id_in@
            == a.trust_override@[i].when_host_id_in@ && b.trust_override@[i].anchors@.len()
            == a.trust_override@[i].anchors@.len() && b.trust_override@[i].intermediates@.len()
            == a.trust_override@[i].intermediates@.len(),
        b.pkcs11_module is Some <==> a.pkcs11_module is Some,
        b.gost_engine_path is Some <==> a.gost_engine_path is Some,
        a.mode != RawMode::Pkcs11 && a.pkcs12_source != RawPkcs12Source::TokenObject
            ==> b.pkcs11_module == a.pkcs11_module,
{
    if 0 <= i < a.trust_override@.len() {
        assert(same_override(a.trust_override@[i], b.trust_override@[i]));
    }
}

} // verus!
