//! The gateway client and the headers it puts on each request.

use vstd::prelude::*;
use crate::decimal::{decimal, decimal_string, decimal_value, is_digit, lemma_decimal_round_trip};
use crate::headers::HeaderSet;
use crate::clock::now_millis;

verus! {

/// The literal that every correlation id starts with.
pub open spec fn correlation_prefix() -> Seq<char> {
    "sdkrust_"@
}

/// The correlation id for a request made `millis` milliseconds after the
/// Unix epoch.
pub open spec fn correlation_id(millis: nat) -> Seq<char> {
    correlation_prefix() + decimal(millis)
}

/// The number that the text after the prefix of a correlation id reads as.
pub open spec fn correlation_millis(id: Seq<char>) -> int {
    decimal_value(id.subrange(correlation_prefix().len() as int, id.len() as int))
}

/// A correlation id is the prefix followed by a non-empty run of decimal
/// digits, which reads back as the time it was made at.
pub proof fn lemma_correlation_id_shape(millis: nat)
    ensures
        correlation_prefix().is_prefix_of(correlation_id(millis)),
        correlation_id(millis).len() > correlation_prefix().len(),
        forall|i: int|
            correlation_prefix().len() <= i < correlation_id(millis).len() ==> is_digit(
                #[trigger] correlation_id(millis)[i],
            ),
        correlation_millis(correlation_id(millis)) == millis,
{
    let id = correlation_id(millis);
    let n = correlation_prefix().len() as int;
    lemma_decimal_round_trip(millis);
    assert(id.subrange(0, n) =~= correlation_prefix());
    assert(id.subrange(n, id.len() as int) =~= decimal(millis));
    assert forall|i: int| n <= i < id.len() implies is_digit(#[trigger] id[i]) by {
        assert(id[i] == decimal(millis)[i - n]);
    }
}

/// Headers made at a later time carry a correlation id that reads as a
/// number no smaller than one made earlier.
pub proof fn lemma_correlation_ids_ordered(
    api_key: Seq<char>,
    project_id: Option<Seq<char>>,
    earlier: nat,
    later: nat,
)
    requires
        earlier <= later,
    ensures
        correlation_millis(header_map(api_key, project_id, earlier)["x-correlation-id"@])
            <= correlation_millis(header_map(api_key, project_id, later)["x-correlation-id"@]),
{
    lemma_header_map_correlation(api_key, project_id, earlier);
    lemma_header_map_correlation(api_key, project_id, later);
    lemma_correlation_id_shape(earlier);
    lemma_correlation_id_shape(later);
}

/// Headers made at two different milliseconds carry different correlation
/// ids.
pub proof fn lemma_correlation_ids_differ(
    api_key: Seq<char>,
    project_id: Option<Seq<char>>,
    a: nat,
    b: nat,
)
    requires
        a != b,
    ensures
        header_map(api_key, project_id, a)["x-correlation-id"@] != header_map(
            api_key,
            project_id,
            b,
        )["x-correlation-id"@],
{
    lemma_header_map_correlation(api_key, project_id, a);
    lemma_header_map_correlation(api_key, project_id, b);
    lemma_correlation_id_shape(a);
    lemma_correlation_id_shape(b);
}

/// The headers always carry the API key as given, and carry the project id,
/// as given, exactly when the client has one.
pub proof fn lemma_header_map_credentials(
    api_key: Seq<char>,
    project_id: Option<Seq<char>>,
    millis: nat,
)
    ensures
        header_map(api_key, project_id, millis).contains_key("x-api-key"@),
        header_map(api_key, project_id, millis)["x-api-key"@] == api_key,
        header_map(api_key, project_id, millis).contains_key("x-project-id"@) <==> project_id is Some,
        project_id matches Some(p) ==> header_map(api_key, project_id, millis)["x-project-id"@] == p,
{
    reveal_strlit("x-api-key");
    reveal_strlit("x-correlation-id");
    reveal_strlit("x-project-id");
    assert("x-correlation-id"@.len() != "x-project-id"@.len());
    assert("x-api-key"@.len() != "x-project-id"@.len());
}

proof fn lemma_header_map_correlation(api_key: Seq<char>, project_id: Option<Seq<char>>, millis: nat)
    ensures
        header_map(api_key, project_id, millis).contains_key("x-correlation-id"@),
        header_map(api_key, project_id, millis)["x-correlation-id"@] == correlation_id(millis),
{
    reveal_strlit("x-correlation-id");
    reveal_strlit("x-project-id");
    assert("x-project-id"@.len() != "x-correlation-id"@.len());
}

/// The headers for a client with the API key `api_key` and the optional
/// project id `project_id`, at `millis` milliseconds after the Unix epoch.
pub open spec fn header_map(
    api_key: Seq<char>,
    project_id: Option<Seq<char>>,
    millis: nat,
) -> Map<Seq<char>, Seq<char>> {
    let base = map!["x-api-key"@ => api_key, "x-correlation-id"@ => correlation_id(millis)];
    match project_id {
        Some(p) => base.insert("x-project-id"@, p),
        None => base,
    }
}

/// A client of the gateway: where the gateway is, and the credentials that
/// go with each request.
pub struct CaasRustSdk {
    pub gateway_base_url: String,
    pub api_key: String,
    pub project_id: Option<String>,
}

impl CaasRustSdk {
    /// The project id as text, if the client has one.
    pub open spec fn project_id_view(&self) -> Option<Seq<char>> {
        match self.project_id {
            Some(p) => Some(p@),
            None => None,
        }
    }

    /// A client for the gateway at `gateway_base_url`. Any text is accepted.
    pub fn new(gateway_base_url: &str, api_key: &str, project_id: Option<&str>) -> (r: Self)
        ensures
            r.gateway_base_url@ == gateway_base_url@,
            r.api_key@ == api_key@,
            r.project_id_view() == match project_id {
                Some(p) => Some(p@),
                None => None::<Seq<char>>,
            },
    {
        let project_id = match project_id {
            Some(p) => Some(p.to_string()),
            None => None,
        };
        CaasRustSdk {
            gateway_base_url: gateway_base_url.to_string(),
            api_key: api_key.to_string(),
            project_id,
        }
    }

    /// The headers for a request made `millis` milliseconds after the Unix
    /// epoch.
    pub fn headers_at(&self, millis: u128) -> (r: HeaderSet)
        ensures
            r@ == header_map(self.api_key@, self.project_id_view(), millis as nat),
    {
        proof {
            reveal_strlit("x-api-key");
            reveal_strlit("x-correlation-id");
            reveal_strlit("x-project-id");
            reveal_strlit("sdkrust_");
            assert("x-correlation-id"@.len() != "x-api-key"@.len());
            assert("x-project-id"@.len() != "x-api-key"@.len());
            assert("x-project-id"@.len() != "x-correlation-id"@.len());
        }
        let mut correlation = "sdkrust_".to_string();
        correlation.append(decimal_string(millis).as_str());
        let headers = HeaderSet::new();
        let headers = headers.with("x-api-key".to_string(), self.api_key.clone());
        let headers = headers.with("x-correlation-id".to_string(), correlation);
        let headers = match &self.project_id {
            Some(p) => headers.with("x-project-id".to_string(), p.clone()),
            None => headers,
        };
        assert(headers@ =~= header_map(self.api_key@, self.project_id_view(), millis as nat));
        headers
    }

    /// The headers for a request made now: the API key, a correlation id
    /// made of a fixed prefix and the current time in milliseconds since the
    /// Unix epoch, and the project id where the client has one.
    pub fn canonical_headers(&self) -> (r: HeaderSet)
        ensures
            exists|millis: nat| r@ == header_map(self.api_key@, self.project_id_view(), millis),
            r@.contains_key("x-api-key"@),
            r@["x-api-key"@] == self.api_key@,
            r@.contains_key("x-project-id"@) <==> self.project_id is Some,
            self.project_id matches Some(p) ==> r@["x-project-id"@] == p@,
            r@.contains_key("x-correlation-id"@),
            correlation_prefix().is_prefix_of(r@["x-correlation-id"@]),
            exists|millis: nat| r@["x-correlation-id"@] == correlation_id(millis),
    {
        proof {
            reveal_strlit("x-api-key");
            reveal_strlit("x-correlation-id");
            reveal_strlit("x-project-id");
            assert("x-correlation-id"@.len() != "x-api-key"@.len());
            assert("x-project-id"@.len() != "x-api-key"@.len());
            assert("x-project-id"@.len() != "x-correlation-id"@.len());
        }
        let millis = now_millis();
        let r = self.headers_at(millis);
        proof {
            lemma_correlation_id_shape(millis as nat);
        }
        r
    }
}

} // verus!
