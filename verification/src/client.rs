//! The client: its identity, its regional configuration, and its credential
//! store, together with the request context that every endpoint call
//! resolves before building its parameters.

use vstd::prelude::*;
use crate::authz::{Authz, CredentialCell};
use crate::request::{spec_pairs, push_pair};
use crate::text::{spec_digits, u32_string};
use crate::types::{
    DeviceType, Order, OrderDirection, spec_device_type_str, spec_order_str,
    spec_order_direction_str,
};

verus! {

/// The country code a call uses: an explicitly configured one wins; absent
/// that, the country of the stored credential; absent both, "US".
pub open spec fn spec_country_code(explicit: Option<String>, cred: Option<Authz>) -> Seq<char> {
    match explicit {
        Some(cc) => cc@,
        None => match cred {
            Some(a) => match a.country_code {
                Some(cc) => cc@,
                None => "US"@,
            },
            None => "US"@,
        },
    }
}

/// Resolve the country code for a call from the explicit setting and a
/// loaded credential: explicit setting over credential country over "US".
pub fn resolve_country_code(explicit: &Option<String>, cred: &Option<Authz>) -> (r: String)
    ensures
        r@ == spec_country_code(*explicit, *cred),
{
    match explicit {
        Some(cc) => cc.clone(),
        None => match cred {
            Some(a) => match &a.country_code {
                Some(cc) => cc.clone(),
                None => String::from_str("US"),
            },
            None => String::from_str("US"),
        },
    }
}

/// The locale a call uses: the configured one, or "en_US".
pub open spec fn spec_locale(explicit: Option<String>) -> Seq<char> {
    match explicit {
        Some(l) => l@,
        None => "en_US"@,
    }
}

/// The user id carried by a loaded credential.
pub open spec fn spec_user_of(cred: Option<Authz>) -> Option<u64> {
    match cred {
        Some(a) => Some(a.user_id),
        None => None,
    }
}

/// The device type a call reports: the configured one, or the browser.
pub open spec fn spec_device_type(explicit: Option<DeviceType>) -> DeviceType {
    match explicit {
        Some(d) => d,
        None => DeviceType::Browser,
    }
}

/// The resolved per-call context: country code, locale, device type, and
/// the authenticated user's id when a credential is stored. Endpoint plans
/// are built from this context, so their contracts are exact functions of
/// it.
#[derive(Clone, Debug)]
pub struct RequestContext {
    pub country_code: String,
    pub locale: String,
    pub device_type: DeviceType,
    pub user_id: Option<u64>,
}

/// The three context parameters that every catalog and user call carries.
pub open spec fn spec_context_params(ctx: RequestContext) -> Seq<(Seq<char>, Seq<char>)> {
    seq![
        ("countryCode"@, ctx.country_code@),
        ("locale"@, ctx.locale@),
        ("deviceType"@, spec_device_type_str(ctx.device_type)),
    ]
}

/// Start a parameter list with the three context parameters.
pub fn context_params(ctx: &RequestContext) -> (ps: Vec<(String, String)>)
    ensures
        spec_pairs(ps@) == spec_context_params(*ctx),
{
    let mut ps: Vec<(String, String)> = Vec::new();
    push_pair(&mut ps, "countryCode", ctx.country_code.clone());
    push_pair(&mut ps, "locale", ctx.locale.clone());
    push_pair(&mut ps, "deviceType", String::from_str(ctx.device_type.as_str()));
    proof {
        assert(spec_pairs(ps@) =~= spec_context_params(*ctx));
    }
    ps
}

/// A `u32` option with its per-endpoint default applied.
pub open spec fn spec_u32_or(o: Option<u32>, d: u32) -> u32 {
    match o {
        Some(x) => x,
        None => d,
    }
}

pub fn u32_or(o: Option<u32>, d: u32) -> (r: u32)
    ensures
        r == spec_u32_or(o, d),
{
    match o {
        Some(x) => x,
        None => d,
    }
}

/// The parameters of a paginated listing call: the page window, then the
/// three context parameters.
pub open spec fn spec_paged_params(offset: u32, limit: u32, ctx: RequestContext) -> Seq<
    (Seq<char>, Seq<char>),
> {
    seq![("offset"@, spec_digits(offset as nat)), ("limit"@, spec_digits(limit as nat))]
        + spec_context_params(ctx)
}

/// Build the parameters of a paginated listing call.
pub fn paged_params(ctx: &RequestContext, offset: u32, limit: u32) -> (ps: Vec<(String, String)>)
    ensures
        spec_pairs(ps@) == spec_paged_params(offset, limit, *ctx),
{
    let mut ps: Vec<(String, String)> = Vec::new();
    push_pair(&mut ps, "offset", u32_string(offset));
    push_pair(&mut ps, "limit", u32_string(limit));
    push_pair(&mut ps, "countryCode", ctx.country_code.clone());
    push_pair(&mut ps, "locale", ctx.locale.clone());
    push_pair(&mut ps, "deviceType", String::from_str(ctx.device_type.as_str()));
    proof {
        assert(spec_pairs(ps@) =~= spec_paged_params(offset, limit, *ctx));
    }
    ps
}

/// The parameters of a favorites listing call: the page window, the
/// ordering, then the three context parameters.
pub open spec fn spec_favorites_params(
    offset: u32,
    limit: u32,
    order: Order,
    direction: OrderDirection,
    ctx: RequestContext,
) -> Seq<(Seq<char>, Seq<char>)> {
    seq![
        ("offset"@, spec_digits(offset as nat)),
        ("limit"@, spec_digits(limit as nat)),
        ("order"@, spec_order_str(order)),
        ("orderDirection"@, spec_order_direction_str(direction)),
    ] + spec_context_params(ctx)
}

/// Build the parameters of a favorites listing call.
pub fn favorites_params(
    ctx: &RequestContext,
    offset: u32,
    limit: u32,
    order: Order,
    direction: OrderDirection,
) -> (ps: Vec<(String, String)>)
    ensures
        spec_pairs(ps@) == spec_favorites_params(offset, limit, order, direction, *ctx),
{
    let mut ps: Vec<(String, String)> = Vec::new();
    push_pair(&mut ps, "offset", u32_string(offset));
    push_pair(&mut ps, "limit", u32_string(limit));
    push_pair(&mut ps, "order", String::from_str(order.as_str()));
    push_pair(&mut ps, "orderDirection", String::from_str(direction.as_str()));
    push_pair(&mut ps, "countryCode", ctx.country_code.clone());
    push_pair(&mut ps, "locale", ctx.locale.clone());
    push_pair(&mut ps, "deviceType", String::from_str(ctx.device_type.as_str()));
    proof {
        assert(spec_pairs(ps@) =~= spec_favorites_params(offset, limit, order, direction, *ctx));
    }
    ps
}

/// The client: its API identity, its regional configuration, and the
/// credential store shared by all concurrent calls.
///
/// The store is the only shared mutable state; everything else is plain
/// configuration. The embedding application pairs a client with an HTTP
/// transport, a capacity-one refresh permit, and an optional
/// refresh-notification callback.
pub struct TidalClient {
    /// The vendor-issued client identifier
    pub client_id: String,
    /// Explicitly configured country code, overriding the credential's
    pub country_code: Option<String>,
    /// Explicitly configured locale
    pub locale: Option<String>,
    /// Explicitly configured device type
    pub device_type: Option<DeviceType>,
    /// The credential store
    pub authz: CredentialCell,
}

impl TidalClient {
    /// A new client with the given client ID, no credential, and default
    /// regional settings.
    pub fn new(client_id: String) -> (c: TidalClient)
        ensures
            c.client_id == client_id,
            c.country_code is None,
            c.locale is None,
            c.device_type is None,
    {
        TidalClient {
            client_id,
            country_code: None,
            locale: None,
            device_type: None,
            authz: CredentialCell::empty(),
        }
    }

    /// Store existing authentication tokens, builder style.
    pub fn with_authz(self, authz: Authz) -> (c: TidalClient)
        ensures
            c.client_id == self.client_id,
            c.country_code == self.country_code,
            c.locale == self.locale,
            c.device_type == self.device_type,
    {
        TidalClient { authz: CredentialCell::with_value(authz), ..self }
    }

    /// Set the locale, builder style.
    pub fn with_locale(self, locale: String) -> (c: TidalClient)
        ensures
            c.locale == Some(locale),
            c.client_id == self.client_id,
            c.country_code == self.country_code,
            c.device_type == self.device_type,
            c.authz == self.authz,
    {
        TidalClient { locale: Some(locale), ..self }
    }

    /// Set the device type, builder style.
    pub fn with_device_type(self, device_type: DeviceType) -> (c: TidalClient)
        ensures
            c.device_type == Some(device_type),
            c.client_id == self.client_id,
            c.country_code == self.country_code,
            c.locale == self.locale,
            c.authz == self.authz,
    {
        TidalClient { device_type: Some(device_type), ..self }
    }

    /// Set the country code, builder style. It takes priority over the
    /// country code of any stored credential.
    pub fn with_country_code(self, country_code: String) -> (c: TidalClient)
        ensures
            c.country_code == Some(country_code),
            c.client_id == self.client_id,
            c.locale == self.locale,
            c.device_type == self.device_type,
            c.authz == self.authz,
    {
        TidalClient { country_code: Some(country_code), ..self }
    }

    /// The country code calls will use: the explicit setting over the
    /// stored credential's country over "US".
    pub fn get_country_code(&self) -> (r: String)
        ensures
            self.country_code matches Some(cc) ==> r@ == cc@,
            exists|loaded: Option<Authz>| r@ == spec_country_code(self.country_code, loaded),
    {
        let loaded = self.authz.load();
        let r = resolve_country_code(&self.country_code, &loaded);
        proof {
            assert(r@ == spec_country_code(self.country_code, loaded));
        }
        r
    }

    /// The locale calls will use: the explicit setting or "en_US".
    pub fn get_locale(&self) -> (r: String)
        ensures
            r@ == spec_locale(self.locale),
    {
        match &self.locale {
            Some(l) => l.clone(),
            None => String::from_str("en_US"),
        }
    }

    /// The device type calls will report: the explicit setting or the
    /// browser.
    pub fn get_device_type(&self) -> (r: DeviceType)
        ensures
            r == spec_device_type(self.device_type),
    {
        match self.device_type {
            Some(d) => d,
            None => DeviceType::Browser,
        }
    }

    /// The id of the authenticated user, when a credential is stored.
    pub fn get_user_id(&self) -> (r: Option<u64>)
        ensures
            exists|loaded: Option<Authz>| r == spec_user_of(loaded),
    {
        let loaded = self.authz.load();
        let r = match &loaded {
            Some(a) => Some(a.user_id),
            None => None,
        };
        proof {
            assert(r == spec_user_of(loaded));
        }
        r
    }

    /// A snapshot of the stored credential, for persisting between runs.
    ///
    /// The snapshot is whole — all four fields from one prior store, never
    /// a mixture of two credentials — because the store is only ever
    /// replaced with complete values: `crate::flight` proves that law of
    /// the protocol (`lemma_reader_sees_whole_credential`), and the trusted
    /// cell's atomic swap carries it to the running code. Nothing relates
    /// one load to the next, so no `ensures` can say which credential comes
    /// back.
    pub fn get_authz(&self) -> Option<Authz> {
        self.authz.load()
    }

    /// Set the country code for later calls.
    pub fn set_country_code(&mut self, country_code: String)
        ensures
            final(self).country_code == Some(country_code),
            final(self).client_id == old(self).client_id,
            final(self).locale == old(self).locale,
            final(self).device_type == old(self).device_type,
            final(self).authz == old(self).authz,
    {
        self.country_code = Some(country_code);
    }

    /// Set the locale for later calls.
    pub fn set_locale(&mut self, locale: String)
        ensures
            final(self).locale == Some(locale),
            final(self).client_id == old(self).client_id,
            final(self).country_code == old(self).country_code,
            final(self).device_type == old(self).device_type,
            final(self).authz == old(self).authz,
    {
        self.locale = Some(locale);
    }

    /// Set the device type for later calls.
    pub fn set_device_type(&mut self, device_type: DeviceType)
        ensures
            final(self).device_type == Some(device_type),
            final(self).client_id == old(self).client_id,
            final(self).country_code == old(self).country_code,
            final(self).locale == old(self).locale,
            final(self).authz == old(self).authz,
    {
        self.device_type = Some(device_type);
    }

    /// Resolve the per-call context from the configuration and one snapshot
    /// of the credential store: the country code and the user id both come
    /// from that one loaded credential.
    pub fn request_context(&self) -> (ctx: RequestContext)
        ensures
            ctx.locale@ == spec_locale(self.locale),
            ctx.device_type == spec_device_type(self.device_type),
            self.country_code matches Some(cc) ==> ctx.country_code@ == cc@,
            exists|loaded: Option<Authz>|
                {
                    &&& ctx.country_code@ == spec_country_code(self.country_code, loaded)
                    &&& ctx.user_id == spec_user_of(loaded)
                },
    {
        let loaded = self.authz.load();
        let country_code = resolve_country_code(&self.country_code, &loaded);
        let user_id = match &loaded {
            Some(a) => Some(a.user_id),
            None => None,
        };
        let ctx = RequestContext {
            country_code,
            locale: self.get_locale(),
            device_type: self.get_device_type(),
            user_id,
        };
        proof {
            assert({
                &&& ctx.country_code@ == spec_country_code(self.country_code, loaded)
                &&& ctx.user_id == spec_user_of(loaded)
            });
        }
        ctx
    }
}

} // verus!
