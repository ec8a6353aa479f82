//! The declarative tool-definition model and chain assembly.
//!
//! A configuration is a registry of tool definitions keyed by tool name.
//! Registrations are applied in order with last-write-wins upsert
//! semantics; a definition is compiled into a provider chain by mapping
//! its strategy names, in order, to concrete providers, silently dropping
//! a strategy whose required parameters are missing.

use vstd::prelude::*;

use crate::strutil::str_eq;
use crate::toolchain::{
    CargoBuildProvider, CargoBuildProviderV, ChainProvider, Provider, ProviderV, UrlProvider,
    UrlProviderV,
};

verus! {

/// One tool's declarative acquisition description.
#[derive(Debug, Clone, PartialEq, Eq)]
pub struct ToolDefinition {
    /// The tool name this definition is keyed by.
    pub name: String,
    /// The version the definition declares.
    pub version: String,
    /// The download URL template, with `{version}` and `{platform}`
    /// placeholders, if the url strategy applies.
    pub url_template: Option<String>,
    /// The expected artifact digest, as hex, if one was declared.
    pub sha256: Option<String>,
    /// The source repository, if the source strategy applies.
    pub git_url: Option<String>,
    /// The strategy names, in precedence order.
    pub strategies: Vec<String>,
}

/// The mathematical shape of a `ToolDefinition`.
pub struct ToolDefinitionV {
    pub name: Seq<char>,
    pub version: Seq<char>,
    pub url_template: Option<Seq<char>>,
    pub sha256: Option<Seq<char>>,
    pub git_url: Option<Seq<char>>,
    pub strategies: Seq<Seq<char>>,
}

impl View for ToolDefinition {
    type V = ToolDefinitionV;

    open spec fn view(&self) -> ToolDefinitionV {
        ToolDefinitionV {
            name: self.name@,
            version: self.version@,
            url_template: self.url_template.deep_view(),
            sha256: self.sha256.deep_view(),
            git_url: self.git_url.deep_view(),
            strategies: self.strategies.deep_view(),
        }
    }
}

impl DeepView for ToolDefinition {
    type V = ToolDefinitionV;

    open spec fn deep_view(&self) -> ToolDefinitionV {
        self.view()
    }
}

/// The registry of tool definitions, in registration order.
pub struct Config {
    /// The registered definitions; no two share a name.
    pub tools: Vec<ToolDefinition>,
}

impl View for Config {
    type V = Seq<ToolDefinitionV>;

    open spec fn view(&self) -> Seq<ToolDefinitionV> {
        self.tools.deep_view()
    }
}

/// Position of the first definition named `name`, or -1.
pub open spec fn def_idx(s: Seq<ToolDefinitionV>, name: Seq<char>) -> int
    decreases s.len(),
{
    if s.len() == 0 {
        -1
    } else if s[0].name == name {
        0
    } else {
        let r = def_idx(s.drop_first(), name);
        if r < 0 {
            -1
        } else {
            r + 1
        }
    }
}

/// The definition registered under `name`, if any.
pub open spec fn lookup_spec(s: Seq<ToolDefinitionV>, name: Seq<char>) -> Option<ToolDefinitionV> {
    let i = def_idx(s, name);
    if 0 <= i < s.len() {
        Some(s[i])
    } else {
        None
    }
}

/// The registry after registering `d`: the definition with `d`'s name is
/// replaced when one exists, and `d` is appended otherwise — a later
/// registration for the same name wins.
pub open spec fn upsert_spec(s: Seq<ToolDefinitionV>, d: ToolDefinitionV) -> Seq<
    ToolDefinitionV,
> {
    let i = def_idx(s, d.name);
    if 0 <= i < s.len() {
        s.update(i, d)
    } else {
        s.push(d)
    }
}

/// What `def_idx` reports: the least index carrying `name`, or -1.
pub proof fn lemma_def_idx_props(s: Seq<ToolDefinitionV>, name: Seq<char>)
    ensures
        def_idx(s, name) >= -1,
        def_idx(s, name) >= 0 ==> def_idx(s, name) < s.len() && s[def_idx(s, name)].name == name
            && (forall|j: int| 0 <= j < def_idx(s, name) ==> s[j].name != name),
        def_idx(s, name) == -1 ==> (forall|j: int| 0 <= j < s.len() ==> s[j].name != name),
    decreases s.len(),
{
    if s.len() == 0 {
    } else if s[0].name == name {
    } else {
        lemma_def_idx_props(s.drop_first(), name);
        assert forall|j: int| 1 <= j < s.len() implies s.drop_first()[j - 1] == s[j] by {}
    }
}

/// No two definitions share a name.
pub open spec fn names_unique(s: Seq<ToolDefinitionV>) -> bool {
    forall|i: int, j: int| 0 <= i < j < s.len() ==> s[i].name != s[j].name
}

/// Law: registration keeps definition names unique, so the registry stays
/// a mapping keyed by tool name.
pub proof fn lemma_upsert_preserves_unique(s: Seq<ToolDefinitionV>, d: ToolDefinitionV)
    requires
        names_unique(s),
    ensures
        names_unique(upsert_spec(s, d)),
{
    lemma_def_idx_props(s, d.name);
    let i = def_idx(s, d.name);
    if 0 <= i < s.len() {
        let u = s.update(i, d);
        assert forall|a: int, b: int| 0 <= a < b < u.len() implies u[a].name != u[b].name by {
            assert(u[a].name == s[a].name);
            assert(u[b].name == s[b].name);
        }
    } else {
        let u = s.push(d);
        assert forall|a: int, b: int| 0 <= a < b < u.len() implies u[a].name != u[b].name by {
            if b == s.len() {
                assert(u[a].name == s[a].name);
                assert(s[a].name != d.name);
            } else {
                assert(u[a].name == s[a].name);
                assert(u[b].name == s[b].name);
            }
        }
    }
}

/// Law: after registering `d`, looking its name up yields exactly `d` —
/// a later registration for the same name wins.
pub proof fn lemma_upsert_lookup(s: Seq<ToolDefinitionV>, d: ToolDefinitionV)
    ensures
        lookup_spec(upsert_spec(s, d), d.name) == Some(d),
{
    lemma_def_idx_props(s, d.name);
    let i = def_idx(s, d.name);
    if 0 <= i < s.len() {
        let u = s.update(i, d);
        assert forall|j: int| 0 <= j < i implies u[j].name != d.name by {
            assert(u[j] == s[j]);
        }
        lemma_def_idx_first(u, d.name, i);
    } else {
        let u = s.push(d);
        assert forall|j: int| 0 <= j < s.len() implies u[j].name != d.name by {
            assert(u[j] == s[j]);
        }
        lemma_def_idx_first(u, d.name, s.len() as int);
    }
}

/// Law: registering `d` leaves every other name's lookup unchanged.
pub proof fn lemma_upsert_preserves_others(
    s: Seq<ToolDefinitionV>,
    d: ToolDefinitionV,
    name: Seq<char>,
)
    requires
        name != d.name,
    ensures
        lookup_spec(upsert_spec(s, d), name) == lookup_spec(s, name),
{
    lemma_def_idx_props(s, d.name);
    lemma_def_idx_props(s, name);
    let i = def_idx(s, d.name);
    let k = def_idx(s, name);
    if 0 <= i < s.len() {
        let u = s.update(i, d);
        if 0 <= k < s.len() {
            assert(s[k].name == name);
            assert(k != i);
            assert(u[k] == s[k]);
            assert forall|j: int| 0 <= j < k implies u[j].name != name by {
                if j == i {
                    assert(u[j].name == d.name);
                } else {
                    assert(u[j] == s[j]);
                }
            }
            lemma_def_idx_first(u, name, k);
        } else {
            assert forall|j: int| 0 <= j < u.len() implies u[j].name != name by {
                if j == i {
                    assert(u[j].name == d.name);
                } else {
                    assert(u[j] == s[j]);
                }
            }
            lemma_def_idx_props(u, name);
            if def_idx(u, name) >= 0 {
                assert(u[def_idx(u, name)].name == name);
            }
        }
    } else {
        let u = s.push(d);
        if 0 <= k < s.len() {
            assert(u[k] == s[k]);
            assert forall|j: int| 0 <= j < k implies u[j].name != name by {
                assert(u[j] == s[j]);
            }
            lemma_def_idx_first(u, name, k);
        } else {
            assert forall|j: int| 0 <= j < u.len() implies u[j].name != name by {
                if j < s.len() {
                    assert(u[j] == s[j]);
                } else {
                    assert(u[j].name == d.name);
                }
            }
            lemma_def_idx_props(u, name);
            if def_idx(u, name) >= 0 {
                assert(u[def_idx(u, name)].name == name);
            }
        }
    }
}

impl Default for Config {
    /// The empty registry.
    fn default() -> (r: Config)
        ensures
            r@ == Seq::<ToolDefinitionV>::empty(),
    {
        Config { tools: Vec::new() }
    }
}

impl Config {
    /// Registers `d`, replacing any earlier definition of the same name.
    pub fn register(&mut self, d: ToolDefinition)
        ensures
            final(self)@ == upsert_spec(old(self)@, d@),
    {
        let n: usize = self.tools.len();
        let mut i: usize = 0;
        while i < n
            invariant
                self@ == old(self)@,
                n == self.tools.len(),
                n == self@.len(),
                i <= n,
                forall|j: int| 0 <= j < i ==> self@[j].name != d@.name,
            decreases n - i,
        {
            proof {
                assert(self@[i as int] == self.tools@[i as int]@);
            }
            if str_eq(self.tools[i].name.as_str(), d.name.as_str()) {
                proof {
                    lemma_def_idx_first(self@, d@.name, i as int);
                }
                let ghost before = self@;
                let ghost dv = d@;
                self.tools.set(i, d);
                proof {
                    assert(self@ =~= before.update(i as int, dv));
                }
                return ;
            }
            i += 1;
        }
        proof {
            lemma_def_idx_props(self@, d@.name);
        }
        let ghost before = self@;
        let ghost dv = d@;
        self.tools.push(d);
        proof {
            assert(self@ =~= before.push(dv));
        }
    }

    /// The definition registered for `tool_name`, if any.
    pub fn get(&self, tool_name: &str) -> (r: Option<&ToolDefinition>)
        ensures
            r.deep_view() == lookup_spec(self@, tool_name@),
    {
        let n: usize = self.tools.len();
        let mut i: usize = 0;
        while i < n
            invariant
                n == self.tools.len(),
                n == self@.len(),
                i <= n,
                forall|j: int| 0 <= j < i ==> self@[j].name != tool_name@,
            decreases n - i,
        {
            proof {
                assert(self@[i as int] == self.tools@[i as int]@);
            }
            if str_eq(self.tools[i].name.as_str(), tool_name) {
                proof {
                    lemma_def_idx_first(self@, tool_name@, i as int);
                }
                return Some(&self.tools[i]);
            }
            i += 1;
        }
        proof {
            lemma_def_idx_props(self@, tool_name@);
        }
        None
    }
}

/// Helper: a position carrying `name` with none before it is what
/// `def_idx` reports.
proof fn lemma_def_idx_first(s: Seq<ToolDefinitionV>, name: Seq<char>, i: int)
    requires
        0 <= i < s.len(),
        s[i].name == name,
        forall|j: int| 0 <= j < i ==> s[j].name != name,
    ensures
        def_idx(s, name) == i,
    decreases i,
{
    if i == 0 {
    } else {
        lemma_def_idx_first(s.drop_first(), name, i - 1);
    }
}

/// The providers one strategy name contributes: host always applies; url
/// requires a URL template and carries the declared digest; source
/// requires a repository and builds a binary named after the tool; any
/// other name, or one whose requirement is missing, contributes nothing.
pub open spec fn strategy_providers_spec(
    s: Seq<char>,
    d: ToolDefinitionV,
    tool: Seq<char>,
) -> Seq<ProviderV> {
    if s == "host"@ {
        seq![ProviderV::Host]
    } else if s == "url"@ {
        match d.url_template {
            Some(t) => seq![
                ProviderV::Url(UrlProviderV { url_template: t, sha256: d.sha256 }),
            ],
            None => Seq::empty(),
        }
    } else if s == "source"@ {
        match d.git_url {
            Some(g) => seq![
                ProviderV::Source(CargoBuildProviderV { git_url: g, bin_name: tool }),
            ],
            None => Seq::empty(),
        }
    } else {
        Seq::empty()
    }
}

/// The provider sequence a definition's strategies assemble, in order.
pub open spec fn assemble_spec(
    strategies: Seq<Seq<char>>,
    d: ToolDefinitionV,
    tool: Seq<char>,
) -> Seq<ProviderV>
    decreases strategies.len(),
{
    if strategies.len() == 0 {
        Seq::empty()
    } else {
        strategy_providers_spec(strategies[0], d, tool) + assemble_spec(
            strategies.drop_first(),
            d,
            tool,
        )
    }
}

impl Config {
    /// Compiles the definition registered for `tool_name` into its
    /// provider chain, mapping each strategy name in declared order and
    /// dropping any strategy whose required parameters are missing;
    /// `None` when no definition is registered.
    pub fn get_tool_provider(&self, tool_name: &str) -> (r: Option<ChainProvider>)
        ensures
            match lookup_spec(self@, tool_name@) {
                None => r is None,
                Some(d) => match r {
                    Some(c) => c@ == assemble_spec(d.strategies, d, tool_name@),
                    None => false,
                },
            },
    {
        let def: &ToolDefinition = match self.get(tool_name) {
            None => { return None; },
            Some(d) => d,
        };
        let ghost dv = def@;
        let ghost all = dv.strategies;
        let n: usize = def.strategies.len();
        let mut providers: Vec<Provider> = Vec::new();
        let mut i: usize = 0;
        proof {
            assert(all.subrange(0, n as int) =~= all);
        }
        while i < n
            invariant
                lookup_spec(self@, tool_name@) == Some(dv),
                def@ == dv,
                all == dv.strategies,
                n == def.strategies.len(),
                n == all.len(),
                i <= n,
                assemble_spec(all, dv, tool_name@) == providers.deep_view() + assemble_spec(
                    all.subrange(i as int, n as int),
                    dv,
                    tool_name@,
                ),
            decreases n - i,
        {
            let ghost tail = all.subrange(i as int, n as int);
            let ghost built = providers.deep_view();
            proof {
                assert(tail[0] == all[i as int]);
                assert(def.strategies.deep_view()[i as int] == def.strategies@[i as int]@);
                assert(tail.drop_first() =~= all.subrange(i as int + 1, n as int));
            }
            let s: &str = def.strategies[i].as_str();
            if str_eq(s, "host") {
                providers.push(Provider::Host(crate::toolchain::HostProvider));
                proof {
                    assert(providers.deep_view() =~= built + seq![ProviderV::Host]);
                    assert((built + strategy_providers_spec(tail[0], dv, tool_name@))
                        + assemble_spec(tail.drop_first(), dv, tool_name@) =~= built + (
                    strategy_providers_spec(tail[0], dv, tool_name@) + assemble_spec(
                        tail.drop_first(),
                        dv,
                        tool_name@,
                    )));
                }
            } else if str_eq(s, "url") {
                match &def.url_template {
                    Some(t) => {
                        let p = Provider::Url(
                            UrlProvider { url_template: t.clone(), sha256: clone_opt(&def.sha256) },
                        );
                        proof {
                            assert(p@ == ProviderV::Url(
                                UrlProviderV { url_template: t@, sha256: dv.sha256 },
                            ));
                        }
                        providers.push(p);
                        proof {
                            assert(providers.deep_view() =~= built + strategy_providers_spec(
                                tail[0],
                                dv,
                                tool_name@,
                            ));
                            assert((built + strategy_providers_spec(tail[0], dv, tool_name@))
                                + assemble_spec(tail.drop_first(), dv, tool_name@) =~= built + (
                            strategy_providers_spec(tail[0], dv, tool_name@) + assemble_spec(
                                tail.drop_first(),
                                dv,
                                tool_name@,
                            )));
                        }
                    },
                    None => {
                        proof {
                            assert(strategy_providers_spec(tail[0], dv, tool_name@)
                                =~= Seq::<ProviderV>::empty());
                            assert(built + assemble_spec(tail.drop_first(), dv, tool_name@)
                                =~= built + (strategy_providers_spec(tail[0], dv, tool_name@)
                            + assemble_spec(tail.drop_first(), dv, tool_name@)));
                        }
                    },
                }
            } else if str_eq(s, "source") {
                match &def.git_url {
                    Some(g) => {
                        let p = Provider::Source(
                            CargoBuildProvider { git_url: g.clone(), bin_name: tool_name.to_owned() },
                        );
                        providers.push(p);
                        proof {
                            assert(providers.deep_view() =~= built + strategy_providers_spec(
                                tail[0],
                                dv,
                                tool_name@,
                            ));
                            assert((built + strategy_providers_spec(tail[0], dv, tool_name@))
                                + assemble_spec(tail.drop_first(), dv, tool_name@) =~= built + (
                            strategy_providers_spec(tail[0], dv, tool_name@) + assemble_spec(
                                tail.drop_first(),
                                dv,
                                tool_name@,
                            )));
                        }
                    },
                    None => {
                        proof {
                            assert(strategy_providers_spec(tail[0], dv, tool_name@)
                                =~= Seq::<ProviderV>::empty());
                            assert(built + assemble_spec(tail.drop_first(), dv, tool_name@)
                                =~= built + (strategy_providers_spec(tail[0], dv, tool_name@)
                            + assemble_spec(tail.drop_first(), dv, tool_name@)));
                        }
                    },
                }
            } else {
                proof {
                    assert(strategy_providers_spec(tail[0], dv, tool_name@)
                        =~= Seq::<ProviderV>::empty());
                    assert(built + assemble_spec(tail.drop_first(), dv, tool_name@) =~= built + (
                    strategy_providers_spec(tail[0], dv, tool_name@) + assemble_spec(
                        tail.drop_first(),
                        dv,
                        tool_name@,
                    )));
                }
            }
            i += 1;
        }
        proof {
            assert(all.subrange(n as int, n as int) =~= Seq::<Seq<char>>::empty());
            assert(providers.deep_view() + Seq::<ProviderV>::empty() =~= providers.deep_view());
        }
        Some(ChainProvider::new(providers))
    }
}

/// A copy of an optional string with the same text.
fn clone_opt(o: &Option<String>) -> (r: Option<String>)
    ensures
        r.deep_view() == o.deep_view(),
{
    match o {
        Some(s) => Some(s.clone()),
        None => None,
    }
}

/// The default strategy order used when a registration names none.
pub fn default_strategies() -> (r: Vec<String>)
    ensures
        r.deep_view() =~= seq!["host"@, "url"@],
{
    let mut v: Vec<String> = Vec::new();
    v.push("host".to_owned());
    v.push("url".to_owned());
    proof {
        assert(v.deep_view() =~= seq!["host"@, "url"@]);
    }
    v
}

/// The provider chain used for `tool_name`: the configured chain when a
/// definition exists, else a chain holding the host strategy alone.
pub fn get_provider(config: &Config, tool_name: &str) -> (r: ChainProvider)
    ensures
        r@ == match lookup_spec(config@, tool_name@) {
            Some(d) => assemble_spec(d.strategies, d, tool_name@),
            None => seq![ProviderV::Host],
        },
{
    match config.get_tool_provider(tool_name) {
        Some(c) => c,
        None => {
            let mut providers: Vec<Provider> = Vec::new();
            providers.push(Provider::Host(crate::toolchain::HostProvider));
            proof {
                assert(providers.deep_view() =~= seq![ProviderV::Host]);
            }
            ChainProvider::new(providers)
        },
    }
}

} // verus!
