//! The configuration of the proxy and the policies that are read from it:
//! whether a request must be authorised, whether the z.ai provider serves a
//! request, and which upstream model a request is sent to.

use crate::utils::ambient::fresh_token;
use crate::utils::text::same_text;
use vstd::prelude::*;
use vstd::string::StringExecFns;

verus! {

/// When a request to the proxy must be authorised.
#[derive(Debug, Clone, Copy, PartialEq, Eq, Structural)]
pub enum ProxyAuthMode {
    /// Never.
    Off,
    /// Always.
    Strict,
    /// Always, but for the health check.
    AllExceptHealth,
    /// As the binding suggests: see `effective`.
    Auto,
}

/// How the z.ai provider takes part in routing.
#[derive(Debug, Clone, Copy, PartialEq, Eq, Structural)]
pub enum ZaiDispatchMode {
    /// Never use z.ai.
    Off,
    /// Use z.ai for every request of its protocol.
    Exclusive,
    /// Treat z.ai as one more slot of the shared pool.
    Pooled,
    /// Use z.ai only when the pool is unavailable.
    Fallback,
}

/// How the User-Agent header is rotated.
#[derive(Debug, Clone, Copy, PartialEq, Eq, Structural)]
pub enum UaRotationMode {
    /// No rotation.
    Off,
    /// A new choice for every request.
    PerRequest,
    /// One choice for a session.
    PerSession,
    /// One choice for an account.
    PerAccount,
}

/// The family of models that an incoming model id belongs to.
#[derive(Debug, Clone, Copy, PartialEq, Eq, Structural)]
pub enum ModelFamily {
    Opus,
    Sonnet,
    Haiku,
}

/// The upstream model for each family.
#[derive(Debug)]
pub struct ZaiModelDefaults {
    pub opus: String,
    pub sonnet: String,
    pub haiku: String,
}

/// Which tools of the z.ai provider are switched on.
#[derive(Debug, Clone, Copy, PartialEq, Eq, Structural)]
pub struct ZaiMcpConfig {
    pub enabled: bool,
    pub web_search_enabled: bool,
    pub web_reader_enabled: bool,
    pub vision_enabled: bool,
}

/// One override of the model mapping: requests for `incoming` go to `upstream`.
#[derive(Debug)]
pub struct ModelOverride {
    pub incoming: String,
    pub upstream: String,
}

/// The z.ai provider.
#[derive(Debug)]
pub struct ZaiConfig {
    pub enabled: bool,
    pub base_url: String,
    pub api_key: String,
    pub dispatch_mode: ZaiDispatchMode,
    /// Overrides of the model mapping, consulted before the family defaults.
    pub model_mapping: Vec<ModelOverride>,
    pub models: ZaiModelDefaults,
    pub mcp: ZaiMcpConfig,
}

/// Whether whole exchanges are written down for debugging, and where.
#[derive(Debug)]
pub struct DebugLoggingConfig {
    pub enabled: bool,
    pub output_dir: Option<String>,
}

/// The blacklist of addresses.
#[derive(Debug)]
pub struct IpBlacklistConfig {
    pub enabled: bool,
    /// What a blocked client is told.
    pub block_message: String,
}

/// The whitelist of addresses.
#[derive(Debug, Clone, Copy, PartialEq, Eq, Structural)]
pub struct IpWhitelistConfig {
    pub enabled: bool,
    /// Whether a whitelisted address is spared the blacklist.
    pub whitelist_priority: bool,
}

/// The address lists.
#[derive(Debug)]
pub struct SecurityMonitorConfig {
    pub blacklist: IpBlacklistConfig,
    pub whitelist: IpWhitelistConfig,
}

/// The proxy through which upstream is reached.
#[derive(Debug)]
pub struct UpstreamProxyConfig {
    pub enabled: bool,
    pub url: String,
}

/// The configuration of the proxy service.
#[derive(Debug)]
pub struct ProxyConfig {
    pub enabled: bool,
    /// Whether the service listens on every interface, not only on loopback.
    pub allow_lan_access: bool,
    pub auth_mode: ProxyAuthMode,
    pub port: u16,
    pub api_key: String,
    pub admin_password: Option<String>,
    pub auto_start: bool,
    pub custom_mapping: Vec<ModelOverride>,
    /// The time that a request may take, in seconds.
    pub request_timeout: u64,
    pub enable_logging: bool,
    pub debug_logging: DebugLoggingConfig,
    pub upstream_proxy: UpstreamProxyConfig,
    pub zai: ZaiConfig,
    pub user_agent_override: Option<String>,
    pub security_monitor: SecurityMonitorConfig,
    pub preferred_account_id: Option<String>,
    pub saved_user_agent: Option<String>,
    pub user_agent_pool: Vec<String>,
    pub ua_rotation_mode: UaRotationMode,
}

/// The texts of the default pool of User-Agent headers.
pub open spec fn user_agent_pool_text() -> Seq<Seq<char>> {
    seq![
        "Mozilla/5.0 (Windows NT 10.0; Win64; x64) AppleWebKit/537.36 (KHTML, like Gecko) Chrome/131.0.0.0 Safari/537.36"@,
        "Mozilla/5.0 (Macintosh; Intel Mac OS X 10_15_7) AppleWebKit/537.36 (KHTML, like Gecko) Chrome/131.0.0.0 Safari/537.36"@,
        "Mozilla/5.0 (Windows NT 10.0; Win64; x64; rv:133.0) Gecko/20100101 Firefox/133.0"@,
        "Mozilla/5.0 (Macintosh; Intel Mac OS X 10.15; rv:133.0) Gecko/20100101 Firefox/133.0"@,
        "Mozilla/5.0 (Macintosh; Intel Mac OS X 10_15_7) AppleWebKit/605.1.15 (KHTML, like Gecko) Version/17.6 Safari/605.1.15"@,
        "Mozilla/5.0 (Windows NT 10.0; Win64; x64) AppleWebKit/537.36 (KHTML, like Gecko) Chrome/131.0.0.0 Safari/537.36 Edg/131.0.0.0"@,
    ]
}

/// The mode that `mode` comes to for a service that is, or is not, bound
/// to loopback only: `Auto` asks for nothing on loopback and spares only
/// the health check elsewhere; every other mode stands for itself.
pub open spec fn effective_mode(mode: ProxyAuthMode, loopback_only: bool) -> ProxyAuthMode {
    match mode {
        ProxyAuthMode::Auto => if loopback_only {
            ProxyAuthMode::Off
        } else {
            ProxyAuthMode::AllExceptHealth
        },
        other => other,
    }
}

/// Whether a request must be authorised.
pub open spec fn auth_required(mode: ProxyAuthMode, loopback_only: bool, health_route: bool) -> bool {
    match effective_mode(mode, loopback_only) {
        ProxyAuthMode::Off => false,
        ProxyAuthMode::Strict => true,
        ProxyAuthMode::AllExceptHealth => !health_route,
        ProxyAuthMode::Auto => false,
    }
}

/// Whether the provider serves a request of its protocol. `pool_available`
/// says whether the shared pool can serve it, `pool_choice` whether the
/// pool's own rule picked the provider's slot.
pub open spec fn provider_serves(
    enabled: bool,
    mode: ZaiDispatchMode,
    pool_available: bool,
    pool_choice: bool,
) -> bool {
    enabled && match mode {
        ZaiDispatchMode::Off => false,
        ZaiDispatchMode::Exclusive => true,
        ZaiDispatchMode::Pooled => pool_choice,
        ZaiDispatchMode::Fallback => !pool_available,
    }
}

/// The upstream model of the first override for `incoming`.
pub open spec fn override_for(overrides: Seq<ModelOverride>, incoming: Seq<char>) -> Option<
    Seq<char>,
>
    decreases overrides.len(),
{
    if overrides.len() == 0 {
        None
    } else if overrides[0].incoming@ == incoming {
        Some(overrides[0].upstream@)
    } else {
        override_for(overrides.drop_first(), incoming)
    }
}

/// The upstream model of a family.
pub open spec fn family_default(models: ZaiModelDefaults, family: ModelFamily) -> Seq<char> {
    match family {
        ModelFamily::Opus => models.opus@,
        ModelFamily::Sonnet => models.sonnet@,
        ModelFamily::Haiku => models.haiku@,
    }
}

/// The upstream model for a request: the override for the incoming model
/// id where there is one, else the default of its family.
pub open spec fn resolved_model(config: ZaiConfig, incoming: Seq<char>, family: ModelFamily) -> Seq<
    char,
> {
    match override_for(config.model_mapping@, incoming) {
        Some(upstream) => upstream,
        None => family_default(config.models, family),
    }
}

/// An override before which no override is for `incoming` is the first
/// for it; where none is for it there is none.
pub proof fn lemma_override_for(overrides: Seq<ModelOverride>, incoming: Seq<char>, k: int)
    requires
        0 <= k <= overrides.len(),
        forall|j: int| 0 <= j < k ==> (#[trigger] overrides[j]).incoming@ != incoming,
        k < overrides.len() ==> overrides[k].incoming@ == incoming,
    ensures
        override_for(overrides, incoming) == if k < overrides.len() {
            Some(overrides[k].upstream@)
        } else {
            None::<Seq<char>>
        },
    decreases k,
{
    if k > 0 {
        let rest = overrides.drop_first();
        assert forall|j: int| 0 <= j < k - 1 implies (#[trigger] rest[j]).incoming@ != incoming by {
            assert(rest[j] == overrides[j + 1]);
        }
        lemma_override_for(rest, incoming, k - 1);
    }
}

/// Whether no incoming model id has two overrides: what a table of
/// overrides keeps.
pub open spec fn unique_overrides(overrides: Seq<ModelOverride>) -> bool {
    forall|i: int, j: int|
        0 <= i < j < overrides.len() ==> overrides[i].incoming@ != overrides[j].incoming@
}

/// The position of the first override for `incoming`, or the number of
/// overrides where there is none.
pub open spec fn first_override(overrides: Seq<ModelOverride>, incoming: Seq<char>) -> nat
    decreases overrides.len(),
{
    if overrides.len() == 0 || overrides[0].incoming@ == incoming {
        0
    } else {
        1 + first_override(overrides.drop_first(), incoming)
    }
}

/// `first_override` is the first position with an override for `incoming`.
pub proof fn lemma_first_override(overrides: Seq<ModelOverride>, incoming: Seq<char>)
    ensures
        first_override(overrides, incoming) <= overrides.len(),
        forall|j: int|
            0 <= j < first_override(overrides, incoming) ==> (#[trigger] overrides[j]).incoming@
                != incoming,
        first_override(overrides, incoming) < overrides.len() ==> overrides[first_override(
            overrides,
            incoming,
        ) as int].incoming@ == incoming,
    decreases overrides.len(),
{
    if overrides.len() > 0 && overrides[0].incoming@ != incoming {
        let rest = overrides.drop_first();
        lemma_first_override(rest, incoming);
        let k = first_override(rest, incoming) as int;
        assert forall|j: int| 0 <= j < k + 1 implies (#[trigger] overrides[j]).incoming@
            != incoming by {
            if j > 0 {
                assert(overrides[j] == rest[j - 1]);
            }
        }
        if k < rest.len() {
            assert(overrides[k + 1] == rest[k]);
        }
    }
}

/// Sets the override for `incoming` as a table does: it takes the place of
/// the first override for that model id, or is added where there is none.
/// Every other model id keeps its override, and a list without doubles
/// stays without.
pub fn set_override(overrides: &mut Vec<ModelOverride>, incoming: String, upstream: String)
    ensures
        override_for(final(overrides)@, incoming@) == Some(upstream@),
        forall|other: Seq<char>|
            other != incoming@ ==> #[trigger] override_for(final(overrides)@, other)
                == override_for(old(overrides)@, other),
        unique_overrides(old(overrides)@) ==> unique_overrides(final(overrides)@),
        final(overrides)@.len() == if first_override(old(overrides)@, incoming@) < old(
            overrides,
        )@.len() {
            old(overrides)@.len()
        } else {
            old(overrides)@.len() + 1
        },
{
    let ghost before = overrides@;
    let ghost key = incoming@;
    let ghost value = upstream@;
    let mut i: usize = 0;
    while i < overrides.len() && !same_text(overrides[i].incoming.as_str(), incoming.as_str())
        invariant
            i <= overrides.len(),
            overrides@ == before,
            key == incoming@,
            forall|j: int| 0 <= j < i ==> (#[trigger] before[j]).incoming@ != key,
        decreases overrides.len() - i,
    {
        i += 1;
    }
    proof {
        lemma_first_override(before, key);
        let k = first_override(before, key);
        if k < i {
            assert(before[k as int].incoming@ == key);
        }
        if i < k {
            assert(before[i as int].incoming@ != key);
        }
        assert(k == i);
    }
    if i < overrides.len() {
        overrides.set(i, ModelOverride { incoming, upstream });
    } else {
        overrides.push(ModelOverride { incoming, upstream });
    }
    proof {
        let after = overrides@;
        assert(after[i as int].incoming@ == key && after[i as int].upstream@ == value);
        assert forall|j: int| 0 <= j < before.len() implies (#[trigger] after[j]).incoming@
            == before[j].incoming@ by {}
        assert forall|j: int| 0 <= j < before.len() && j != i implies #[trigger] after[j]
            == before[j] by {}
        lemma_override_for(after, key, i as int);
        assert forall|other: Seq<char>| other != key implies #[trigger] override_for(after, other)
            == override_for(before, other) by {
            lemma_first_override(before, other);
            let k = first_override(before, other) as int;
            lemma_override_for(before, other, k);
            if k < before.len() {
                assert(k != i);
                assert forall|j: int| 0 <= j < k implies (#[trigger] after[j]).incoming@
                    != other by {
                    assert(after[j].incoming@ == before[j].incoming@);
                }
                lemma_override_for(after, other, k);
            } else {
                assert forall|j: int| 0 <= j < after.len() implies (#[trigger] after[j]).incoming@
                    != other by {
                    if j < before.len() {
                        assert(after[j].incoming@ == before[j].incoming@);
                    }
                }
                lemma_override_for(after, other, after.len() as int);
            }
        }
        if unique_overrides(before) {
            assert forall|a: int, b: int| 0 <= a < b < after.len() implies after[a].incoming@
                != after[b].incoming@ by {
                if b < before.len() {
                    assert(after[a].incoming@ == before[a].incoming@);
                    assert(after[b].incoming@ == before[b].incoming@);
                } else {
                    assert(after[a].incoming@ == before[a].incoming@);
                    assert(before[a].incoming@ != key);
                }
            }
        }
    }
}

impl Default for ProxyAuthMode {
    fn default() -> (r: Self)
        ensures
            r == ProxyAuthMode::Auto,
    {
        ProxyAuthMode::Auto
    }
}

impl Default for ZaiDispatchMode {
    fn default() -> (r: Self)
        ensures
            r == ZaiDispatchMode::Off,
    {
        ZaiDispatchMode::Off
    }
}

impl Default for UaRotationMode {
    fn default() -> (r: Self)
        ensures
            r == UaRotationMode::Off,
    {
        UaRotationMode::Off
    }
}

impl ProxyAuthMode {
    /// The mode that this mode comes to once the binding is known.
    pub fn effective(&self, loopback_only: bool) -> (r: ProxyAuthMode)
        ensures
            r == effective_mode(*self, loopback_only),
            r != ProxyAuthMode::Auto,
    {
        match self {
            ProxyAuthMode::Auto => if loopback_only {
                ProxyAuthMode::Off
            } else {
                ProxyAuthMode::AllExceptHealth
            },
            ProxyAuthMode::Off => ProxyAuthMode::Off,
            ProxyAuthMode::Strict => ProxyAuthMode::Strict,
            ProxyAuthMode::AllExceptHealth => ProxyAuthMode::AllExceptHealth,
        }
    }

    /// Whether a request must be authorised. `health_route` says whether
    /// it is the health check.
    pub fn requires_auth(&self, loopback_only: bool, health_route: bool) -> (r: bool)
        ensures
            r == auth_required(*self, loopback_only, health_route),
    {
        match self.effective(loopback_only) {
            ProxyAuthMode::Off => false,
            ProxyAuthMode::Strict => true,
            ProxyAuthMode::AllExceptHealth => !health_route,
            ProxyAuthMode::Auto => false,
        }
    }
}

pub fn default_block_message() -> (r: String)
    ensures
        r@ == "Access denied"@,
{
    String::from_str("Access denied")
}

/// The default time that a request may take, in seconds.
pub fn default_request_timeout() -> (r: u64)
    ensures
        r == 120,
{
    120
}

/// The default pool of User-Agent headers for rotation.
pub fn default_user_agent_pool() -> (r: Vec<String>)
    ensures
        r@.map_values(|s: String| s@) == user_agent_pool_text(),
{
    let mut v: Vec<String> = Vec::new();
    v.push(String::from_str("Mozilla/5.0 (Windows NT 10.0; Win64; x64) AppleWebKit/537.36 (KHTML, like Gecko) Chrome/131.0.0.0 Safari/537.36"));
    v.push(String::from_str("Mozilla/5.0 (Macintosh; Intel Mac OS X 10_15_7) AppleWebKit/537.36 (KHTML, like Gecko) Chrome/131.0.0.0 Safari/537.36"));
    v.push(String::from_str("Mozilla/5.0 (Windows NT 10.0; Win64; x64; rv:133.0) Gecko/20100101 Firefox/133.0"));
    v.push(String::from_str("Mozilla/5.0 (Macintosh; Intel Mac OS X 10.15; rv:133.0) Gecko/20100101 Firefox/133.0"));
    v.push(String::from_str("Mozilla/5.0 (Macintosh; Intel Mac OS X 10_15_7) AppleWebKit/605.1.15 (KHTML, like Gecko) Version/17.6 Safari/605.1.15"));
    v.push(String::from_str("Mozilla/5.0 (Windows NT 10.0; Win64; x64) AppleWebKit/537.36 (KHTML, like Gecko) Chrome/131.0.0.0 Safari/537.36 Edg/131.0.0.0"));
    assert(v@.map_values(|s: String| s@) =~= user_agent_pool_text());
    v
}

pub fn default_zai_base_url() -> (r: String)
    ensures
        r@ == "https://api.z.ai/api/anthropic"@,
{
    String::from_str("https://api.z.ai/api/anthropic")
}

pub fn default_zai_opus_model() -> (r: String)
    ensures
        r@ == "glm-4.7"@,
{
    String::from_str("glm-4.7")
}

pub fn default_zai_sonnet_model() -> (r: String)
    ensures
        r@ == "glm-4.7"@,
{
    String::from_str("glm-4.7")
}

pub fn default_zai_haiku_model() -> (r: String)
    ensures
        r@ == "glm-4.5-air"@,
{
    String::from_str("glm-4.5-air")
}

impl Default for ZaiModelDefaults {
    fn default() -> (r: Self)
        ensures
            r.opus@ == "glm-4.7"@,
            r.sonnet@ == "glm-4.7"@,
            r.haiku@ == "glm-4.5-air"@,
    {
        ZaiModelDefaults {
            opus: default_zai_opus_model(),
            sonnet: default_zai_sonnet_model(),
            haiku: default_zai_haiku_model(),
        }
    }
}

impl Default for ZaiMcpConfig {
    fn default() -> (r: Self)
        ensures
            r == (ZaiMcpConfig {
                enabled: false,
                web_search_enabled: false,
                web_reader_enabled: false,
                vision_enabled: false,
            }),
    {
        ZaiMcpConfig {
            enabled: false,
            web_search_enabled: false,
            web_reader_enabled: false,
            vision_enabled: false,
        }
    }
}

impl Default for ZaiConfig {
    fn default() -> (r: Self)
        ensures
            !r.enabled,
            r.base_url@ == "https://api.z.ai/api/anthropic"@,
            r.api_key@ == Seq::<char>::empty(),
            r.dispatch_mode == ZaiDispatchMode::Off,
            r.model_mapping@.len() == 0,
            r.well_formed(),
            r.models.opus@ == "glm-4.7"@,
            r.models.sonnet@ == "glm-4.7"@,
            r.models.haiku@ == "glm-4.5-air"@,
            r.mcp == (ZaiMcpConfig {
                enabled: false,
                web_search_enabled: false,
                web_reader_enabled: false,
                vision_enabled: false,
            }),
    {
        ZaiConfig {
            enabled: false,
            base_url: default_zai_base_url(),
            api_key: String::new(),
            dispatch_mode: ZaiDispatchMode::Off,
            model_mapping: Vec::new(),
            models: ZaiModelDefaults::default(),
            mcp: ZaiMcpConfig::default(),
        }
    }
}

impl Default for DebugLoggingConfig {
    fn default() -> (r: Self)
        ensures
            !r.enabled,
            r.output_dir is None,
    {
        DebugLoggingConfig { enabled: false, output_dir: None }
    }
}

impl Default for IpBlacklistConfig {
    fn default() -> (r: Self)
        ensures
            !r.enabled,
            r.block_message@ == "Access denied"@,
    {
        IpBlacklistConfig { enabled: false, block_message: default_block_message() }
    }
}

impl Default for IpWhitelistConfig {
    fn default() -> (r: Self)
        ensures
            r == (IpWhitelistConfig { enabled: false, whitelist_priority: true }),
    {
        IpWhitelistConfig { enabled: false, whitelist_priority: true }
    }
}

impl Default for SecurityMonitorConfig {
    fn default() -> (r: Self)
        ensures
            !r.blacklist.enabled,
            r.blacklist.block_message@ == "Access denied"@,
            r.whitelist == (IpWhitelistConfig { enabled: false, whitelist_priority: true }),
    {
        SecurityMonitorConfig {
            blacklist: IpBlacklistConfig::default(),
            whitelist: IpWhitelistConfig::default(),
        }
    }
}

impl Default for UpstreamProxyConfig {
    fn default() -> (r: Self)
        ensures
            !r.enabled,
            r.url@ == Seq::<char>::empty(),
    {
        UpstreamProxyConfig { enabled: false, url: String::new() }
    }
}

impl ZaiConfig {
    /// What holds of a mapping that came from a table: no incoming model
    /// id has two overrides.
    pub open spec fn well_formed(&self) -> bool {
        unique_overrides(self.model_mapping@)
    }

    /// Sets the override for `incoming`, as a table does. Nothing else of
    /// the configuration changes, and a well-formed mapping stays so.
    pub fn set_model_override(&mut self, incoming: String, upstream: String)
        ensures
            forall|family: ModelFamily|
                #[trigger] resolved_model(*final(self), incoming@, family) == upstream@,
            forall|other: Seq<char>, family: ModelFamily|
                other != incoming@ ==> #[trigger] resolved_model(*final(self), other, family)
                    == resolved_model(*old(self), other, family),
            old(self).well_formed() ==> final(self).well_formed(),
            final(self).enabled == old(self).enabled,
            final(self).base_url == old(self).base_url,
            final(self).api_key == old(self).api_key,
            final(self).dispatch_mode == old(self).dispatch_mode,
            final(self).models == old(self).models,
            final(self).mcp == old(self).mcp,
    {
        set_override(&mut self.model_mapping, incoming, upstream);
    }

    /// Whether the provider serves a request of its protocol.
    pub fn serves(&self, pool_available: bool, pool_choice: bool) -> (r: bool)
        ensures
            r == provider_serves(self.enabled, self.dispatch_mode, pool_available, pool_choice),
    {
        self.enabled && match self.dispatch_mode {
            ZaiDispatchMode::Off => false,
            ZaiDispatchMode::Exclusive => true,
            ZaiDispatchMode::Pooled => pool_choice,
            ZaiDispatchMode::Fallback => !pool_available,
        }
    }

    /// The upstream model for a request. The overrides are consulted
    /// first; a model id without one goes to the default of its family.
    pub fn resolve_model(&self, incoming: &str, family: ModelFamily) -> (r: String)
        ensures
            r@ == resolved_model(*self, incoming@, family),
    {
        let mut i: usize = 0;
        while i < self.model_mapping.len()
            invariant
                i <= self.model_mapping.len(),
                forall|j: int|
                    0 <= j < i ==> (#[trigger] self.model_mapping@[j]).incoming@ != incoming@,
            decreases self.model_mapping.len() - i,
        {
            if same_text(self.model_mapping[i].incoming.as_str(), incoming) {
                proof {
                    lemma_override_for(self.model_mapping@, incoming@, i as int);
                }
                return self.model_mapping[i].upstream.clone();
            }
            i += 1;
        }
        proof {
            lemma_override_for(self.model_mapping@, incoming@, i as int);
        }
        match family {
            ModelFamily::Opus => self.models.opus.clone(),
            ModelFamily::Sonnet => self.models.sonnet.clone(),
            ModelFamily::Haiku => self.models.haiku.clone(),
        }
    }
}

impl ProxyConfig {
    /// What holds of a configuration whose mappings came from tables: no
    /// incoming model id has two overrides, in either mapping.
    pub open spec fn well_formed(&self) -> bool {
        unique_overrides(self.custom_mapping@) && self.zai.well_formed()
    }

    /// The address that the service listens on: every interface where
    /// access from the network is allowed, loopback otherwise.
    pub fn get_bind_address(&self) -> (r: &'static str)
        ensures
            r@ == if self.allow_lan_access {
                "0.0.0.0"@
            } else {
                "127.0.0.1"@
            },
    {
        if self.allow_lan_access {
            "0.0.0.0"
        } else {
            "127.0.0.1"
        }
    }

    /// Whether a request must be authorised. The service is bound to
    /// loopback only where access from the network is not allowed.
    pub fn requires_auth(&self, health_route: bool) -> (r: bool)
        ensures
            r == auth_required(self.auth_mode, !self.allow_lan_access, health_route),
    {
        self.auth_mode.requires_auth(!self.allow_lan_access, health_route)
    }
}

impl Default for ProxyConfig {
    /// The configuration of a fresh installation. Its key is made anew
    /// each time: `sk-` and 32 random characters.
    fn default() -> (r: Self)
        ensures
            !r.enabled,
            !r.allow_lan_access,
            r.auth_mode == ProxyAuthMode::Auto,
            r.port == 8045,
            r.api_key@.len() == 35,
            r.api_key@.subrange(0, 3) == "sk-"@,
            r.admin_password is None,
            !r.auto_start,
            r.custom_mapping@.len() == 0,
            r.well_formed(),
            r.request_timeout == 120,
            r.enable_logging,
            !r.debug_logging.enabled,
            r.debug_logging.output_dir is None,
            !r.upstream_proxy.enabled,
            r.upstream_proxy.url@ == Seq::<char>::empty(),
            !r.zai.enabled,
            r.zai.base_url@ == "https://api.z.ai/api/anthropic"@,
            r.zai.api_key@ == Seq::<char>::empty(),
            r.zai.dispatch_mode == ZaiDispatchMode::Off,
            r.zai.model_mapping@.len() == 0,
            r.zai.models.opus@ == "glm-4.7"@,
            r.zai.models.sonnet@ == "glm-4.7"@,
            r.zai.models.haiku@ == "glm-4.5-air"@,
            r.zai.mcp == (ZaiMcpConfig {
                enabled: false,
                web_search_enabled: false,
                web_reader_enabled: false,
                vision_enabled: false,
            }),
            !r.security_monitor.blacklist.enabled,
            r.security_monitor.blacklist.block_message@ == "Access denied"@,
            r.security_monitor.whitelist == (IpWhitelistConfig {
                enabled: false,
                whitelist_priority: true,
            }),
            r.user_agent_override is None,
            r.preferred_account_id is None,
            r.saved_user_agent is None,
            r.user_agent_pool@.map_values(|s: String| s@) == user_agent_pool_text(),
            r.ua_rotation_mode == UaRotationMode::Off,
    {
        let mut api_key = String::from_str("sk-");
        let token = fresh_token();
        api_key.append(token.as_str());
        proof {
            reveal_strlit("sk-");
            assert(api_key@.subrange(0, 3) =~= "sk-"@);
        }
        ProxyConfig {
            enabled: false,
            allow_lan_access: false,
            auth_mode: ProxyAuthMode::default(),
            port: 8045,
            api_key,
            admin_password: None,
            auto_start: false,
            custom_mapping: Vec::new(),
            request_timeout: default_request_timeout(),
            enable_logging: true,
            debug_logging: DebugLoggingConfig::default(),
            upstream_proxy: UpstreamProxyConfig::default(),
            zai: ZaiConfig::default(),
            user_agent_override: None,
            security_monitor: SecurityMonitorConfig::default(),
            preferred_account_id: None,
            saved_user_agent: None,
            user_agent_pool: default_user_agent_pool(),
            ua_rotation_mode: UaRotationMode::default(),
        }
    }
}

} // verus!
