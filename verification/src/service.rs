//! The service that the gateway stands for. Its slug makes its scopes, its
//! addresses and the names under which it and its static client are known.

use vstd::prelude::*;

verus! {

/// The tools that only read.
pub const OUTILS_LECTURE: [&'static str; 1] = ["opus_health"];

/// The tools that delegate work or keep a session.
pub const OUTILS_ECRITURE: [&'static str; 2] = ["opus_think", "opus_session"];

/// The service: its slug, and the product that it delegates to, by name.
pub struct Service {
    pub slug: String,
    pub product: String,
}

/// The service as a value.
pub struct ServiceModel {
    pub slug: Seq<char>,
    pub product: Seq<char>,
}

impl View for Service {
    type V = ServiceModel;

    open spec fn view(&self) -> ServiceModel {
        ServiceModel { slug: self.slug@, product: self.product@ }
    }
}

impl ServiceModel {
    /// The scope that opens the tools that read.
    pub open spec fn read_scope(self) -> Seq<char> {
        self.slug + ":lecture"@
    }

    /// The scope that opens every tool.
    pub open spec fn write_scope(self) -> Seq<char> {
        self.slug + ":ecriture"@
    }

    /// The issuer of the tokens, unless it is set.
    pub open spec fn issuer_default(self) -> Seq<char> {
        "https://mymcps.duckdns.org/oauth/"@ + self.slug
    }

    /// The address of the protected resource.
    pub open spec fn resource_url(self) -> Seq<char> {
        "https://mymcps.duckdns.org/"@ + self.slug + "/mcp"@
    }

    /// The name of the protected resource.
    pub open spec fn resource_name(self) -> Seq<char> {
        "delegation de reflexion "@ + self.product + " (passerelle)"@
    }

    /// The path at which the metadata of the protected resource is served as well.
    pub open spec fn prm_alias(self) -> Seq<char> {
        "/.well-known/oauth-protected-resource/"@ + self.slug + "/mcp"@
    }

    /// The address of the metadata of the protected resource.
    pub open spec fn prm_url(self) -> Seq<char> {
        "https://mymcps.duckdns.org"@ + self.prm_alias()
    }

    /// The client that the static token stands for.
    pub open spec fn static_client_id(self) -> Seq<char> {
        self.slug + "-mcp-cli-statique"@
    }

    /// The name of the service in its health report.
    pub open spec fn name(self) -> Seq<char> {
        self.slug + "-mcp"@
    }

    /// The file that holds the static token, unless it is set.
    pub open spec fn token_file_default(self) -> Seq<char> {
        "/opt/"@ + self.slug + "-gateway-rs/.mcp_token"@
    }
}

fn between(before: &str, middle: &str, after: &str) -> (r: String)
    ensures
        r@ == before@ + middle@ + after@,
{
    before.to_string().concat(middle).concat(after)
}

impl Service {
    /// The scope that opens the tools that read.
    pub fn read_scope(&self) -> (r: String)
        ensures
            r@ == self@.read_scope(),
            r@ == self.slug@ + ":lecture"@,
    {
        self.slug.clone().concat(":lecture")
    }

    /// The scope that opens every tool.
    pub fn write_scope(&self) -> (r: String)
        ensures
            r@ == self@.write_scope(),
            r@ == self.slug@ + ":ecriture"@,
    {
        self.slug.clone().concat(":ecriture")
    }

    /// The issuer of the tokens, unless it is set.
    pub fn issuer_default(&self) -> (r: String)
        ensures
            r@ == self@.issuer_default(),
            r@ == "https://mymcps.duckdns.org/oauth/"@ + self.slug@,
    {
        "https://mymcps.duckdns.org/oauth/".to_string().concat(self.slug.as_str())
    }

    /// The address of the protected resource.
    pub fn resource_url(&self) -> (r: String)
        ensures
            r@ == self@.resource_url(),
            r@ == "https://mymcps.duckdns.org/"@ + self.slug@ + "/mcp"@,
    {
        between("https://mymcps.duckdns.org/", self.slug.as_str(), "/mcp")
    }

    /// The name of the protected resource.
    pub fn resource_name(&self) -> (r: String)
        ensures
            r@ == self@.resource_name(),
            r@ == "delegation de reflexion "@ + self.product@ + " (passerelle)"@,
    {
        between("delegation de reflexion ", self.product.as_str(), " (passerelle)")
    }

    /// The path at which the metadata of the protected resource is served as well.
    pub fn prm_alias(&self) -> (r: String)
        ensures
            r@ == self@.prm_alias(),
            r@ == "/.well-known/oauth-protected-resource/"@ + self.slug@ + "/mcp"@,
    {
        between("/.well-known/oauth-protected-resource/", self.slug.as_str(), "/mcp")
    }

    /// The address of the metadata of the protected resource.
    pub fn prm_url(&self) -> (r: String)
        ensures
            r@ == self@.prm_url(),
            r@ == "https://mymcps.duckdns.org"@ + ("/.well-known/oauth-protected-resource/"@
                + self.slug@ + "/mcp"@),
    {
        "https://mymcps.duckdns.org".to_string().concat(self.prm_alias().as_str())
    }

    /// The client that the static token stands for.
    pub fn static_client_id(&self) -> (r: String)
        ensures
            r@ == self@.static_client_id(),
            r@ == self.slug@ + "-mcp-cli-statique"@,
    {
        self.slug.clone().concat("-mcp-cli-statique")
    }

    /// The name of the service in its health report.
    pub fn name(&self) -> (r: String)
        ensures
            r@ == self@.name(),
            r@ == self.slug@ + "-mcp"@,
    {
        self.slug.clone().concat("-mcp")
    }

    /// The file that holds the static token, unless it is set.
    pub fn token_file_default(&self) -> (r: String)
        ensures
            r@ == self@.token_file_default(),
            r@ == "/opt/"@ + self.slug@ + "-gateway-rs/.mcp_token"@,
    {
        between("/opt/", self.slug.as_str(), "-gateway-rs/.mcp_token")
    }
}

/// The three tools are distinct.
pub proof fn law_tools_are_distinct()
    ensures
        "opus_health"@ != "opus_think"@,
        "opus_health"@ != "opus_session"@,
        "opus_think"@ != "opus_session"@,
{
    reveal_strlit("opus_health");
    reveal_strlit("opus_think");
    reveal_strlit("opus_session");
    assert("opus_health"@[5] != "opus_think"@[5]);
    assert("opus_health"@[5] != "opus_session"@[5]);
    assert("opus_think"@[5] != "opus_session"@[5]);
}

/// The two scopes of a service are distinct.
pub proof fn law_scopes_are_distinct(service: ServiceModel)
    ensures
        service.read_scope() != service.write_scope(),
{
    reveal_strlit(":lecture");
    reveal_strlit(":ecriture");
    assert(service.read_scope().len() != service.write_scope().len());
}

/// Where `s` carries `part`: after `before` characters, whole, with `after` characters
/// behind it.
pub open spec fn carries(s: Seq<char>, before: int, part: Seq<char>, after: int) -> bool {
    &&& s.len() == before + part.len() + after
    &&& s.subrange(before, before + part.len()) == part
}

/// Every name and address of a service carries its whole slug, between texts that are
/// the same for all services; the name of the protected resource carries the whole
/// name of the product. Services with different slugs thus share none of them.
pub proof fn law_names_carry_the_slug(a: ServiceModel, b: ServiceModel)
    ensures
        a.read_scope().take(a.slug.len() as int) == a.slug,
        a.write_scope().take(a.slug.len() as int) == a.slug,
        a.static_client_id().take(a.slug.len() as int) == a.slug,
        a.name().take(a.slug.len() as int) == a.slug,
        carries(a.issuer_default(), 33, a.slug, 0),
        carries(a.resource_url(), 27, a.slug, 4),
        carries(a.prm_alias(), 38, a.slug, 4),
        carries(a.prm_url(), 64, a.slug, 4),
        carries(a.token_file_default(), 5, a.slug, 22),
        carries(a.resource_name(), 24, a.product, 13),
        a.slug != b.slug ==> {
            &&& a.read_scope() != b.read_scope()
            &&& a.write_scope() != b.write_scope()
            &&& a.static_client_id() != b.static_client_id()
            &&& a.name() != b.name()
            &&& a.issuer_default() != b.issuer_default()
            &&& a.resource_url() != b.resource_url()
            &&& a.prm_alias() != b.prm_alias()
            &&& a.prm_url() != b.prm_url()
            &&& a.token_file_default() != b.token_file_default()
        },
{
    lemma_carries(a);
    lemma_carries(b);
}

proof fn lemma_carries(a: ServiceModel)
    ensures
        a.read_scope().len() == a.slug.len() + 8,
        a.write_scope().len() == a.slug.len() + 9,
        a.static_client_id().len() == a.slug.len() + 17,
        a.name().len() == a.slug.len() + 4,
        a.read_scope().take(a.slug.len() as int) == a.slug,
        a.write_scope().take(a.slug.len() as int) == a.slug,
        a.static_client_id().take(a.slug.len() as int) == a.slug,
        a.name().take(a.slug.len() as int) == a.slug,
        carries(a.issuer_default(), 33, a.slug, 0),
        carries(a.resource_url(), 27, a.slug, 4),
        carries(a.prm_alias(), 38, a.slug, 4),
        carries(a.prm_url(), 64, a.slug, 4),
        carries(a.token_file_default(), 5, a.slug, 22),
        carries(a.resource_name(), 24, a.product, 13),
{
    reveal_strlit(":lecture");
    reveal_strlit(":ecriture");
    reveal_strlit("-mcp-cli-statique");
    reveal_strlit("-mcp");
    reveal_strlit("/mcp");
    reveal_strlit("https://mymcps.duckdns.org/oauth/");
    reveal_strlit("https://mymcps.duckdns.org/");
    reveal_strlit("https://mymcps.duckdns.org");
    reveal_strlit("/.well-known/oauth-protected-resource/");
    reveal_strlit("/opt/");
    reveal_strlit("-gateway-rs/.mcp_token");
    reveal_strlit("delegation de reflexion ");
    reveal_strlit(" (passerelle)");
    let n = a.slug.len() as int;
    assert(a.read_scope().take(n) =~= a.slug);
    assert(a.write_scope().take(n) =~= a.slug);
    assert(a.static_client_id().take(n) =~= a.slug);
    assert(a.name().take(n) =~= a.slug);
    assert(a.issuer_default().subrange(33, 33 + n) =~= a.slug);
    assert(a.resource_url().subrange(27, 27 + n) =~= a.slug);
    assert(a.prm_alias().subrange(38, 38 + n) =~= a.slug);
    assert(a.prm_url().subrange(64, 64 + n) =~= a.slug);
    assert(a.token_file_default().subrange(5, 5 + n) =~= a.slug);
    assert(a.resource_name().subrange(24, 24 + a.product.len() as int) =~= a.product);
}

/// The metadata of the protected resource stands on the host of that resource, at its
/// path with `/.well-known/oauth-protected-resource` before it: the address, and the
/// path that is served.
pub proof fn law_metadata_address(service: ServiceModel)
    ensures
        service.resource_url() == "https://mymcps.duckdns.org"@ + service.resource_url().skip(26),
        service.prm_alias() == "/.well-known/oauth-protected-resource"@
            + service.resource_url().skip(26),
        service.prm_url() == service.resource_url().take(26)
            + "/.well-known/oauth-protected-resource"@ + service.resource_url().skip(26),
        service.resource_url() == "https://mymcps.duckdns.org/"@ + service.slug + "/mcp"@,
        service.prm_url() == "https://mymcps.duckdns.org/.well-known/oauth-protected-resource/"@
            + service.slug + "/mcp"@,
{
    reveal_strlit("/mcp");
    reveal_strlit("https://mymcps.duckdns.org/");
    reveal_strlit("https://mymcps.duckdns.org");
    reveal_strlit("/.well-known/oauth-protected-resource");
    reveal_strlit("/.well-known/oauth-protected-resource/");
    reveal_strlit("https://mymcps.duckdns.org/.well-known/oauth-protected-resource/");
    let tail = service.resource_url().skip(26);
    assert(service.resource_url() =~= "https://mymcps.duckdns.org"@ + tail);
    assert(service.prm_alias() =~= "/.well-known/oauth-protected-resource"@ + tail);
    assert(service.resource_url().take(26) =~= "https://mymcps.duckdns.org"@);
    assert(service.prm_url() =~= service.resource_url().take(26)
        + "/.well-known/oauth-protected-resource"@ + tail);
    assert(service.prm_url()
        =~= "https://mymcps.duckdns.org/.well-known/oauth-protected-resource/"@ + service.slug
        + "/mcp"@);
}

} // verus!
