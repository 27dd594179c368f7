//! Client-side auth: before an outbound call, inspect the peer's
//! agent card, pick the first security requirement whose every scheme
//! has a credential, and inject those credentials into the request.

use vstd::prelude::*;
use vstd::string::StringExecFns;
use vstd::string::StrSliceExecFns;
use crate::errors::A2AError;
use crate::core_types::In;
use crate::models::{AgentCard, RequirementEntry, SchemeEntry, SecurityRequirement, SecurityScheme};

verus! {

/// Per-call client-side context a transport hands through.
#[derive(Debug)]
pub struct ClientCallContext {
    pub metadata: Vec<(String, String)>,
}

#[verifier::ext_equal]
pub struct HeaderView {
    pub name: Seq<char>,
    pub value: Seq<char>,
}

/// One header, query parameter or cookie: a name and its value.
#[derive(Debug)]
pub struct HeaderEntry {
    pub name: String,
    pub value: String,
}

impl View for HeaderEntry {
    type V = HeaderView;

    open spec fn view(&self) -> HeaderView {
        HeaderView { name: self.name@, value: self.value@ }
    }
}

impl DeepView for HeaderEntry {
    type V = HeaderView;

    open spec fn deep_view(&self) -> HeaderView {
        self.view()
    }
}

#[verifier::ext_equal]
pub struct KwargsView {
    pub headers: Seq<HeaderView>,
    pub cookies: Seq<HeaderView>,
    pub url: Option<Seq<char>>,
}

/// The transport-level request shape the interceptor mutates: a
/// headers map, a cookie set, and the request url whose query an API
/// key may extend.
#[derive(Debug)]
pub struct HttpKwargs {
    pub headers: Vec<HeaderEntry>,
    pub cookies: Vec<HeaderEntry>,
    pub url: Option<String>,
}

impl View for HttpKwargs {
    type V = KwargsView;

    open spec fn view(&self) -> KwargsView {
        KwargsView {
            headers: self.headers.deep_view(),
            cookies: self.cookies.deep_view(),
            url: self.url.deep_view(),
        }
    }
}

impl DeepView for HttpKwargs {
    type V = KwargsView;

    open spec fn deep_view(&self) -> KwargsView {
        self.view()
    }
}

impl HttpKwargs {
    pub fn new() -> (r: HttpKwargs)
        ensures
            r@ == (KwargsView { headers: Seq::<HeaderView>::empty(), cookies: Seq::<
                HeaderView,
            >::empty(), url: None }),
    {
        let r = HttpKwargs { headers: Vec::new(), cookies: Vec::new(), url: None };
        proof {
            assert(r@ =~= (KwargsView {
                headers: Seq::<HeaderView>::empty(),
                cookies: Seq::<HeaderView>::empty(),
                url: None,
            }));
        }
        r
    }

    pub fn with_url(self, url: String) -> (r: HttpKwargs)
        ensures
            r@ == (KwargsView { url: Some(url@), ..self@ }),
    {
        HttpKwargs { url: Some(url), ..self }
    }

    /// The value of the first header carrying this name.
    #[verifier::loop_isolation(false)]
    pub fn header_value(&self, name: &String) -> (r: Option<&String>)
        ensures
            match r {
                Some(v) => exists|i: int|
                    0 <= i < self@.headers.len() && #[trigger] self@.headers[i] == (HeaderView {
                        name: name@,
                        value: v@,
                    }),
                None => forall|i: int|
                    0 <= i < self@.headers.len() ==> #[trigger] self@.headers[i].name != name@,
            },
    {
        let mut i: usize = 0;
        while i < self.headers.len()
            invariant
                i <= self.headers.len(),
                forall|j: int| 0 <= j < i ==> #[trigger] self@.headers[j].name != name@,
            decreases self.headers.len() - i,
        {
            if self.headers[i].name == *name {
                proof {
                    assert(self@.headers[i as int] == (HeaderView {
                        name: name@,
                        value: self.headers@[i as int].value@,
                    }));
                }
                return Some(&self.headers[i].value);
            }
            i += 1;
        }
        None
    }
}

/// The credential source the interceptor consults. A service answers
/// from its abstract credential map: it may fail, but a successful
/// answer is exactly the map's entry for the scheme id.
pub trait CredentialService: Sized {
    spec fn wf(&self) -> bool;

    spec fn known(&self) -> Map<Seq<char>, Seq<char>>;

    fn get_credentials(&self, scheme_id: &String, context: Option<&ClientCallContext>) -> (r:
        Result<Option<String>, A2AError>)
        requires
            self.wf(),
        ensures
            match r {
                Ok(Some(c)) => self.known().contains_key(scheme_id@) && c@
                    == self.known()[scheme_id@],
                Ok(None) => !self.known().contains_key(scheme_id@),
                Err(_) => true,
            },
    ;
}

#[verifier::ext_equal]
pub struct CredEntryView {
    pub scheme_id: Seq<char>,
    pub secret: Seq<char>,
}

pub struct CredEntry {
    pub scheme_id: String,
    pub secret: String,
}

impl DeepView for CredEntry {
    type V = CredEntryView;

    open spec fn deep_view(&self) -> CredEntryView {
        CredEntryView { scheme_id: self.scheme_id@, secret: self.secret@ }
    }
}

pub open spec fn unique_cred_ids(s: Seq<CredEntryView>) -> bool {
    forall|i: int, j: int|
        0 <= i < s.len() && 0 <= j < s.len() && i != j ==> s[i].scheme_id != s[j].scheme_id
}

pub open spec fn cred_entry_map(s: Seq<CredEntryView>) -> Map<Seq<char>, Seq<char>> {
    Map::new(
        |id: Seq<char>| exists|i: int| 0 <= i < s.len() && s[i].scheme_id == id,
        |id: Seq<char>| s[choose|i: int| 0 <= i < s.len() && s[i].scheme_id == id].secret,
    )
}

/// A credential store filled up-front, one secret per scheme id.
pub struct InMemoryContextCredentialStore {
    entries: Vec<CredEntry>,
}

impl InMemoryContextCredentialStore {
    pub fn new() -> (r: InMemoryContextCredentialStore)
        ensures
            r.wf(),
            r.known() == Map::<Seq<char>, Seq<char>>::empty(),
    {
        let r = InMemoryContextCredentialStore { entries: Vec::new() };
        proof {
            assert(r.entries.deep_view() =~= Seq::<CredEntryView>::empty());
            assert(r.known() =~= Map::<Seq<char>, Seq<char>>::empty());
        }
        r
    }

    /// Record (or overwrite) the credential for one scheme id.
    #[verifier::loop_isolation(false)]
    pub fn add_credential(&mut self, scheme_id: &str, credential: &str)
        requires
            old(self).wf(),
        ensures
            final(self).wf(),
            final(self).known() == old(self).known().insert(scheme_id@, credential@),
    {
        let ghost s0 = self.entries.deep_view();
        let sid = scheme_id.to_owned();
        let entry = CredEntry { scheme_id: scheme_id.to_owned(), secret: credential.to_owned() };
        let mut i: usize = 0;
        while i < self.entries.len()
            invariant
                i <= self.entries.len(),
                self.entries.deep_view() == s0,
                forall|j: int| 0 <= j < i ==> s0[j].scheme_id != scheme_id@,
            decreases self.entries.len() - i,
        {
            if self.entries[i].scheme_id == sid {
                proof {
                    assert(s0[i as int].scheme_id == scheme_id@);
                }
                let slot = &mut self.entries[i];
                *slot = entry;
                proof {
                    let s1 = self.entries.deep_view();
                    lemma_cred_map_update(s0, i as int, credential@);
                    assert(s1 =~= s0.update(
                        i as int,
                        CredEntryView { scheme_id: s0[i as int].scheme_id, secret: credential@ },
                    ));
                }
                return ;
            }
            i += 1;
        }
        self.entries.push(entry);
        proof {
            let s1 = self.entries.deep_view();
            let e1 = CredEntryView { scheme_id: scheme_id@, secret: credential@ };
            assert(s1 =~= s0.push(e1));
            lemma_cred_map_push(s0, e1);
        }
    }
}

proof fn lemma_cred_map_update(s: Seq<CredEntryView>, i: int, secret: Seq<char>)
    requires
        unique_cred_ids(s),
        0 <= i < s.len(),
    ensures
        cred_entry_map(s.update(i, CredEntryView { scheme_id: s[i].scheme_id, secret }))
            == cred_entry_map(s).insert(s[i].scheme_id, secret),
        unique_cred_ids(s.update(i, CredEntryView { scheme_id: s[i].scheme_id, secret })),
{
    let s1 = s.update(i, CredEntryView { scheme_id: s[i].scheme_id, secret });
    let m1 = cred_entry_map(s1);
    let m2 = cred_entry_map(s).insert(s[i].scheme_id, secret);
    assert forall|id: Seq<char>| #[trigger] m1.contains_key(id) == m2.contains_key(id) by {
        if exists|k: int| 0 <= k < s1.len() && s1[k].scheme_id == id {
            let w = choose|w: int| 0 <= w < s1.len() && s1[w].scheme_id == id;
            assert(s[w].scheme_id == id);
        }
        if exists|k: int| 0 <= k < s.len() && s[k].scheme_id == id {
            let w = choose|w: int| 0 <= w < s.len() && s[w].scheme_id == id;
            assert(s1[w].scheme_id == id);
        }
    }
    assert forall|id: Seq<char>| m1.contains_key(id) implies m1[id] == m2[id] by {
        let k1 = choose|k: int| 0 <= k < s1.len() && s1[k].scheme_id == id;
        assert(s1[k1].scheme_id == id);
        if id == s[i].scheme_id {
            assert(k1 == i);
        } else {
            assert(k1 != i);
            let k2 = choose|k: int| 0 <= k < s.len() && s[k].scheme_id == id;
            assert(s[k2].scheme_id == id);
            assert(k2 == k1);
        }
    }
    assert(m1 =~= m2);
}

proof fn lemma_cred_map_push(s: Seq<CredEntryView>, e: CredEntryView)
    requires
        unique_cred_ids(s),
        forall|i: int| 0 <= i < s.len() ==> s[i].scheme_id != e.scheme_id,
    ensures
        cred_entry_map(s.push(e)) == cred_entry_map(s).insert(e.scheme_id, e.secret),
        unique_cred_ids(s.push(e)),
{
    let s1 = s.push(e);
    let m1 = cred_entry_map(s1);
    let m2 = cred_entry_map(s).insert(e.scheme_id, e.secret);
    assert forall|i: int, j: int|
        0 <= i < s1.len() && 0 <= j < s1.len() && i != j implies s1[i].scheme_id
        != s1[j].scheme_id by {
        if i < s.len() && j < s.len() {
        } else if i == s.len() {
            assert(s1[j] == s[j]);
        } else {
            assert(s1[i] == s[i]);
        }
    }
    assert forall|id: Seq<char>| #[trigger] m1.contains_key(id) == m2.contains_key(id) by {
        if exists|k: int| 0 <= k < s1.len() && s1[k].scheme_id == id {
            let w = choose|w: int| 0 <= w < s1.len() && s1[w].scheme_id == id;
            if w < s.len() {
                assert(s[w].scheme_id == id);
            }
        }
        if exists|k: int| 0 <= k < s.len() && s[k].scheme_id == id {
            let w = choose|w: int| 0 <= w < s.len() && s[w].scheme_id == id;
            assert(s1[w].scheme_id == id);
        }
        if id == e.scheme_id {
            assert(s1[s.len() as int].scheme_id == id);
        }
    }
    assert forall|id: Seq<char>| m1.contains_key(id) implies m1[id] == m2[id] by {
        let k1 = choose|k: int| 0 <= k < s1.len() && s1[k].scheme_id == id;
        assert(s1[k1].scheme_id == id);
        if id == e.scheme_id {
            assert(k1 == s.len() as int);
        } else {
            assert(k1 < s.len());
            let k2 = choose|k: int| 0 <= k < s.len() && s[k].scheme_id == id;
            assert(s[k2].scheme_id == id);
            assert(k2 == k1);
        }
    }
    assert(m1 =~= m2);
}

impl CredentialService for InMemoryContextCredentialStore {
    closed spec fn wf(&self) -> bool {
        unique_cred_ids(self.entries.deep_view())
    }

    closed spec fn known(&self) -> Map<Seq<char>, Seq<char>> {
        cred_entry_map(self.entries.deep_view())
    }

    #[verifier::loop_isolation(false)]
    fn get_credentials(&self, scheme_id: &String, _context: Option<&ClientCallContext>) -> (r:
        Result<Option<String>, A2AError>) {
        let ghost s = self.entries.deep_view();
        let mut i: usize = 0;
        while i < self.entries.len()
            invariant
                i <= self.entries.len(),
                s == self.entries.deep_view(),
                forall|j: int| 0 <= j < i ==> s[j].scheme_id != scheme_id@,
            decreases self.entries.len() - i,
        {
            if self.entries[i].scheme_id == *scheme_id {
                let c = self.entries[i].secret.clone();
                proof {
                    assert(s[i as int].scheme_id == scheme_id@);
                    let k = choose|k: int| 0 <= k < s.len() && s[k].scheme_id == scheme_id@;
                    assert(s[k].scheme_id == scheme_id@);
                    assert(k == i);
                }
                return Ok(Some(c));
            }
            i += 1;
        }
        Ok(None)
    }
}

pub open spec fn unique_scheme_ids(s: Seq<SchemeEntry>) -> bool {
    forall|i: int, j: int|
        0 <= i < s.len() && 0 <= j < s.len() && i != j ==> s[i].id@ != s[j].id@
}

pub open spec fn has_scheme(s: Seq<SchemeEntry>, id: Seq<char>) -> bool {
    exists|i: int| 0 <= i < s.len() && s[i].id@ == id
}

pub open spec fn scheme_for(s: Seq<SchemeEntry>, id: Seq<char>) -> SecurityScheme {
    s[choose|i: int| 0 <= i < s.len() && s[i].id@ == id].scheme
}

/// A requirement is satisfiable when every scheme it names exists on
/// the card and has a credential.
pub open spec fn requirement_ok(
    req: SecurityRequirement,
    schemes: Seq<SchemeEntry>,
    creds: Map<Seq<char>, Seq<char>>,
) -> bool {
    forall|i: int|
        0 <= i < req.entries@.len() ==> has_scheme(schemes, #[trigger] req.entries@[i].scheme_id@)
            && creds.contains_key(req.entries@[i].scheme_id@)
}

/// The first satisfiable requirement, in card order.
pub open spec fn first_satisfied(
    security: Seq<SecurityRequirement>,
    schemes: Seq<SchemeEntry>,
    creds: Map<Seq<char>, Seq<char>>,
) -> Option<int>
    decreases security.len(),
{
    if security.len() == 0 {
        None
    } else if requirement_ok(security[0], schemes, creds) {
        Some(0)
    } else {
        match first_satisfied(security.drop_first(), schemes, creds) {
            Some(i) => Some(i + 1),
            None => None,
        }
    }
}

pub open spec fn bearer_value(cred: Seq<char>) -> Seq<char> {
    "Bearer "@ + cred
}

pub open spec fn basic_value(cred: Seq<char>) -> Seq<char> {
    "Basic "@ + cred
}

/// The url with `name=cred` appended to its query.
pub open spec fn with_query_param(u: Seq<char>, name: Seq<char>, cred: Seq<char>) -> Seq<char> {
    if u.contains('?') {
        u + "&"@ + name + "="@ + cred
    } else {
        u + "?"@ + name + "="@ + cred
    }
}

/// How one credential lands on the request, per scheme kind: `basic`
/// HTTP auth and every token-like scheme set `Authorization`; API keys
/// go to the named header, the url query, or a cookie; mutual TLS
/// leaves the request alone.
pub open spec fn apply_scheme_spec(
    k: KwargsView,
    scheme: SecurityScheme,
    cred: Seq<char>,
) -> KwargsView {
    match scheme {
        SecurityScheme::HTTPAuth(h) => if h.scheme@ == "basic"@ {
            KwargsView {
                headers: k.headers.push(
                    HeaderView { name: "Authorization"@, value: basic_value(cred) },
                ),
                ..k
            }
        } else {
            KwargsView {
                headers: k.headers.push(
                    HeaderView { name: "Authorization"@, value: bearer_value(cred) },
                ),
                ..k
            }
        },
        SecurityScheme::APIKey(a) => match a.in_ {
            In::Header => KwargsView {
                headers: k.headers.push(HeaderView { name: a.name@, value: cred }),
                ..k
            },
            In::Query => match k.url {
                Some(u) => KwargsView { url: Some(with_query_param(u, a.name@, cred)), ..k },
                None => k,
            },
            In::Cookie => KwargsView {
                cookies: k.cookies.push(HeaderView { name: a.name@, value: cred }),
                ..k
            },
        },
        SecurityScheme::OAuth2 { .. } => KwargsView {
            headers: k.headers.push(
                HeaderView { name: "Authorization"@, value: bearer_value(cred) },
            ),
            ..k
        },
        SecurityScheme::OpenIdConnect { .. } => KwargsView {
            headers: k.headers.push(
                HeaderView { name: "Authorization"@, value: bearer_value(cred) },
            ),
            ..k
        },
        SecurityScheme::MutualTLS => k,
    }
}

/// All of one requirement's credentials applied, left to right.
pub open spec fn apply_entries(
    k: KwargsView,
    schemes: Seq<SchemeEntry>,
    entries: Seq<RequirementEntry>,
    creds: Map<Seq<char>, Seq<char>>,
) -> KwargsView
    decreases entries.len(),
{
    if entries.len() == 0 {
        k
    } else {
        apply_entries(
            apply_scheme_spec(
                k,
                scheme_for(schemes, entries[0].scheme_id@),
                creds[entries[0].scheme_id@],
            ),
            schemes,
            entries.drop_first(),
            creds,
        )
    }
}

proof fn lemma_apply_entries_snoc(
    k: KwargsView,
    schemes: Seq<SchemeEntry>,
    entries: Seq<RequirementEntry>,
    e: RequirementEntry,
    creds: Map<Seq<char>, Seq<char>>,
)
    ensures
        apply_entries(k, schemes, entries.push(e), creds) == apply_scheme_spec(
            apply_entries(k, schemes, entries, creds),
            scheme_for(schemes, e.scheme_id@),
            creds[e.scheme_id@],
        ),
    decreases entries.len(),
{
    reveal_with_fuel(apply_entries, 3);
    if entries.len() == 0 {
        assert(entries.push(e).drop_first() =~= Seq::<RequirementEntry>::empty());
        assert(entries.push(e)[0] == e);
    } else {
        assert(entries.push(e).drop_first() =~= entries.drop_first().push(e));
        assert(entries.push(e)[0] == entries[0]);
        lemma_apply_entries_snoc(
            apply_scheme_spec(
                k,
                scheme_for(schemes, entries[0].scheme_id@),
                creds[entries[0].scheme_id@],
            ),
            schemes,
            entries.drop_first(),
            e,
            creds,
        );
    }
}

proof fn lemma_first_satisfied_at(
    security: Seq<SecurityRequirement>,
    schemes: Seq<SchemeEntry>,
    creds: Map<Seq<char>, Seq<char>>,
    i: int,
)
    requires
        0 <= i <= security.len(),
        forall|k: int| 0 <= k < i ==> !requirement_ok(#[trigger] security[k], schemes, creds),
        i < security.len() ==> requirement_ok(security[i], schemes, creds),
    ensures
        first_satisfied(security, schemes, creds) == if i == security.len() {
            None::<int>
        } else {
            Some(i)
        },
    decreases security.len(),
{
    if security.len() == 0 {
    } else if i == 0 {
    } else {
        let rest = security.drop_first();
        assert forall|k: int| 0 <= k < i - 1 implies !requirement_ok(
            #[trigger] rest[k],
            schemes,
            creds,
        ) by {
            assert(rest[k] == security[k + 1]);
        }
        if i < security.len() {
            assert(rest[i - 1] == security[i]);
        }
        lemma_first_satisfied_at(rest, schemes, creds, i - 1);
        assert(!requirement_ok(security[0], schemes, creds));
    }
}

/// What an interception does: the first satisfiable requirement's
/// credentials land on the request; with none satisfiable (or no
/// requirements at all) the request is returned unchanged.
pub open spec fn intercept_outcome(
    card: AgentCard,
    creds: Map<Seq<char>, Seq<char>>,
    k0: KwargsView,
) -> KwargsView {
    match first_satisfied(card.security@, card.security_schemes@, creds) {
        Some(i) => apply_entries(k0, card.security_schemes@, card.security@[i].entries@, creds),
        None => k0,
    }
}

/// Law: with two advertised requirements and credentials only for the
/// second, the second requirement's schemes are applied, not the
/// first's.
pub proof fn lemma_fallback_requirement_selected(
    card: AgentCard,
    creds: Map<Seq<char>, Seq<char>>,
    k0: KwargsView,
)
    requires
        card.security@.len() == 2,
        !requirement_ok(card.security@[0], card.security_schemes@, creds),
        requirement_ok(card.security@[1], card.security_schemes@, creds),
    ensures
        intercept_outcome(card, creds, k0) == apply_entries(
            k0,
            card.security_schemes@,
            card.security@[1].entries@,
            creds,
        ),
{
    lemma_first_satisfied_at(card.security@, card.security_schemes@, creds, 1);
}

/// Find the scheme advertised under this id.
#[verifier::loop_isolation(false)]
fn find_scheme<'a>(schemes: &'a Vec<SchemeEntry>, id: &String) -> (r: Option<&'a SecurityScheme>)
    requires
        unique_scheme_ids(schemes@),
    ensures
        match r {
            Some(sch) => has_scheme(schemes@, id@) && *sch == scheme_for(schemes@, id@),
            None => !has_scheme(schemes@, id@),
        },
{
    let mut i: usize = 0;
    while i < schemes.len()
        invariant
            i <= schemes.len(),
            forall|j: int| 0 <= j < i ==> schemes@[j].id@ != id@,
        decreases schemes.len() - i,
    {
        if schemes[i].id == *id {
            proof {
                assert(schemes@[i as int].id@ == id@);
                let k = choose|k: int| 0 <= k < schemes@.len() && schemes@[k].id@ == id@;
                assert(schemes@[k].id@ == id@);
                assert(k == i);
            }
            return Some(&schemes[i].scheme);
        }
        i += 1;
    }
    None
}

fn contains_question_mark(s: &String) -> (r: bool)
    ensures
        r == s@.contains('?'),
{
    let n = s.as_str().unicode_len();
    let mut i: usize = 0;
    while i < n
        invariant
            n == s@.len(),
            i <= n,
            forall|j: int| 0 <= j < i ==> s@[j] != '?',
        decreases n - i,
    {
        if s.as_str().get_char(i) == '?' {
            proof {
                assert(s@[i as int] == '?');
            }
            return true;
        }
        i += 1;
    }
    proof {
        assert forall|j: int| 0 <= j < s@.len() implies s@[j] != '?' by {}
    }
    false
}

/// Land one credential on the request, per the scheme's kind.
fn apply_scheme(kwargs: HttpKwargs, scheme: &SecurityScheme, cred: &String) -> (r: HttpKwargs)
    ensures
        r@ == apply_scheme_spec(kwargs@, *scheme, cred@),
{
    let ghost k0 = kwargs@;
    let mut kwargs = kwargs;
    match scheme {
        SecurityScheme::HTTPAuth(h) => {
            let basic = String::from_str("basic");
            let mut value: String = if h.scheme == basic {
                String::from_str("Basic ")
            } else {
                String::from_str("Bearer ")
            };
            value.append(cred.as_str());
            kwargs.headers.push(HeaderEntry { name: String::from_str("Authorization"), value });
            proof {
                assert(kwargs@.headers =~= apply_scheme_spec(k0, *scheme, cred@).headers);
                assert(kwargs@ =~= apply_scheme_spec(k0, *scheme, cred@));
            }
            kwargs
        },
        SecurityScheme::APIKey(a) => {
            match a.in_ {
                In::Header => {
                    kwargs.headers.push(HeaderEntry { name: a.name.clone(), value: cred.clone() });
                    proof {
                        assert(kwargs@.headers =~= apply_scheme_spec(k0, *scheme, cred@).headers);
                        assert(kwargs@ =~= apply_scheme_spec(k0, *scheme, cred@));
                    }
                    kwargs
                },
                In::Query => {
                    let url = match &kwargs.url {
                        Some(u) => Some(u.clone()),
                        None => None,
                    };
                    match url {
                        Some(u) => {
                            let sep = if contains_question_mark(&u) {
                                String::from_str("&")
                            } else {
                                String::from_str("?")
                            };
                            let mut new_url = u;
                            new_url.append(sep.as_str());
                            new_url.append(a.name.as_str());
                            new_url.append("=");
                            new_url.append(cred.as_str());
                            kwargs.url = Some(new_url);
                            proof {
                                reveal_strlit("=");
                                assert(kwargs@.url->0 =~= with_query_param(
                                    k0.url->0,
                                    a.name@,
                                    cred@,
                                ));
                                assert(kwargs@ =~= apply_scheme_spec(k0, *scheme, cred@));
                            }
                            kwargs
                        },
                        None => {
                            proof {
                                assert(kwargs@ =~= apply_scheme_spec(k0, *scheme, cred@));
                            }
                            kwargs
                        },
                    }
                },
                In::Cookie => {
                    kwargs.cookies.push(HeaderEntry { name: a.name.clone(), value: cred.clone() });
                    proof {
                        assert(kwargs@.cookies =~= apply_scheme_spec(k0, *scheme, cred@).cookies);
                        assert(kwargs@ =~= apply_scheme_spec(k0, *scheme, cred@));
                    }
                    kwargs
                },
            }
        },
        SecurityScheme::OAuth2 { .. } => {
            let mut value = String::from_str("Bearer ");
            value.append(cred.as_str());
            kwargs.headers.push(HeaderEntry { name: String::from_str("Authorization"), value });
            proof {
                assert(kwargs@.headers =~= apply_scheme_spec(k0, *scheme, cred@).headers);
                assert(kwargs@ =~= apply_scheme_spec(k0, *scheme, cred@));
            }
            kwargs
        },
        SecurityScheme::OpenIdConnect { .. } => {
            let mut value = String::from_str("Bearer ");
            value.append(cred.as_str());
            kwargs.headers.push(HeaderEntry { name: String::from_str("Authorization"), value });
            proof {
                assert(kwargs@.headers =~= apply_scheme_spec(k0, *scheme, cred@).headers);
                assert(kwargs@ =~= apply_scheme_spec(k0, *scheme, cred@));
            }
            kwargs
        },
        SecurityScheme::MutualTLS => {
            proof {
                assert(kwargs@ =~= apply_scheme_spec(k0, *scheme, cred@));
            }
            kwargs
        },
    }
}

/// Applies the card's security requirements to outbound calls by
/// consulting a credential service.
pub struct AuthInterceptor<CS: CredentialService> {
    pub credential_service: CS,
}

impl<CS: CredentialService> AuthInterceptor<CS> {
    pub fn new(credential_service: CS) -> (r: Self)
        ensures
            r.credential_service == credential_service,
    {
        AuthInterceptor { credential_service }
    }

    /// Walk the card's requirements in order; the first one whose
    /// every scheme has a credential is applied whole. With none
    /// satisfiable, or no requirements, the request passes unchanged;
    /// the client does not guess. A service failure aborts the call.
    #[verifier::loop_isolation(false)]
    pub fn intercept(
        &self,
        _method: &String,
        payload: String,
        http_kwargs: HttpKwargs,
        card: &AgentCard,
        context: Option<&ClientCallContext>,
    ) -> (r: Result<(String, HttpKwargs), A2AError>)
        requires
            self.credential_service.wf(),
            unique_scheme_ids(card.security_schemes@),
        ensures
            card.security@.len() == 0 ==> r is Ok,
            match r {
                Ok(out) => out.0@ == payload@ && out.1@ == intercept_outcome(
                    *card,
                    self.credential_service.known(),
                    http_kwargs@,
                ),
                Err(_) => true,
            },
    {
        let ghost creds = self.credential_service.known();
        let ghost schemes_v = card.security_schemes@;
        let ghost security_v = card.security@;
        let mut ri: usize = 0;
        while ri < card.security.len()
            invariant
                ri <= card.security.len(),
                forall|k: int| 0 <= k < ri ==> !requirement_ok(
                    #[trigger] security_v[k],
                    schemes_v,
                    creds,
                ),
            decreases card.security.len() - ri,
        {
            let req = &card.security[ri];
            let mut all_present = true;
            let mut ei: usize = 0;
            while ei < req.entries.len() && all_present
                invariant
                    ei <= req.entries.len(),
                    all_present ==> forall|j: int| 0 <= j < ei ==> has_scheme(
                        schemes_v,
                        #[trigger] req.entries@[j].scheme_id@,
                    ) && creds.contains_key(req.entries@[j].scheme_id@),
                    !all_present ==> !requirement_ok(*req, schemes_v, creds),
                decreases req.entries.len() - ei,
            {
                let id = &req.entries[ei].scheme_id;
                let scheme = find_scheme(&card.security_schemes, id);
                match scheme {
                    Some(_) => {
                        match self.credential_service.get_credentials(id, context) {
                            Ok(Some(_)) => (),
                            Ok(None) => {
                                all_present = false;
                            },
                            Err(e) => {
                                return Err(e);
                            },
                        }
                    },
                    None => {
                        all_present = false;
                    },
                }
                ei += 1;
            }
            if all_present {
                proof {
                    assert(requirement_ok(security_v[ri as int], schemes_v, creds));
                    lemma_first_satisfied_at(security_v, schemes_v, creds, ri as int);
                }
                let mut kwargs = http_kwargs;
                let ghost k0 = kwargs@;
                let mut aj: usize = 0;
                while aj < req.entries.len()
                    invariant
                        aj <= req.entries.len(),
                        requirement_ok(security_v[ri as int], schemes_v, creds),
                        ri < security_v.len(),
                        req == &card.security[ri as int],
                        kwargs@ == apply_entries(
                            k0,
                            schemes_v,
                            req.entries@.take(aj as int),
                            creds,
                        ),
                    decreases req.entries.len() - aj,
                {
                    let id = &req.entries[aj].scheme_id;
                    let scheme = match find_scheme(&card.security_schemes, id) {
                        Some(s) => s,
                        None => {
                            proof {
                                assert(has_scheme(schemes_v, req.entries@[aj as int].scheme_id@));
                                assert(false);
                            }
                            return Err(A2AError::AuthRequired);
                        },
                    };
                    let cred = match self.credential_service.get_credentials(id, context) {
                        Ok(Some(c)) => c,
                        Ok(None) => {
                            proof {
                                assert(creds.contains_key(req.entries@[aj as int].scheme_id@));
                                assert(false);
                            }
                            return Err(A2AError::AuthRequired);
                        },
                        Err(e) => {
                            return Err(e);
                        },
                    };
                    kwargs = apply_scheme(kwargs, scheme, &cred);
                    proof {
                        lemma_apply_entries_snoc(
                            k0,
                            schemes_v,
                            req.entries@.take(aj as int),
                            req.entries@[aj as int],
                            creds,
                        );
                        assert(req.entries@.take(aj as int).push(req.entries@[aj as int])
                            =~= req.entries@.take(aj as int + 1));
                    }
                    aj += 1;
                }
                proof {
                    assert(req.entries@.take(req.entries@.len() as int) =~= req.entries@);
                }
                return Ok((payload, kwargs));
            }
            ri += 1;
        }
        proof {
            lemma_first_satisfied_at(security_v, schemes_v, creds, security_v.len() as int);
        }
        Ok((payload, http_kwargs))
    }
}

} // verus!
