//! The chat API client: its configuration, how it is built, and how it
//! judges the answer of the server.
use vstd::prelude::*;
use crate::error::{ErrorView, RagentError};
use crate::llm::llm_type::LlmType;
use crate::text::concat2;

verus! {

/// A configured chat API client.
#[derive(Debug)]
pub struct ApiClient {
    llm: LlmType,
    base_url: String,
    api_key: String,
    timeout_secs: u64,
}

/// A client's configuration, as the specifications see it.
pub struct ClientView {
    pub llm: LlmType,
    pub base_url: Seq<char>,
    pub api_key: Seq<char>,
    pub timeout_secs: u64,
}

impl View for ApiClient {
    type V = ClientView;

    closed spec fn view(&self) -> ClientView {
        ClientView {
            llm: self.llm,
            base_url: self.base_url@,
            api_key: self.api_key@,
            timeout_secs: self.timeout_secs,
        }
    }
}

/// Collects a client's configuration.
pub struct ApiClientBuilder {
    llm: Option<LlmType>,
    base_url: Option<String>,
    api_key: Option<String>,
    headers: Vec<(String, String)>,
    timeout_secs: Option<u64>,
}

/// A builder's state, as the specifications see it.
pub struct BuilderView {
    pub llm: Option<LlmType>,
    pub base_url: Option<Seq<char>>,
    pub api_key: Option<Seq<char>>,
    pub headers: Seq<(Seq<char>, Seq<char>)>,
    pub timeout_secs: Option<u64>,
}

/// The view of an optional string.
pub open spec fn opt_view(o: Option<String>) -> Option<Seq<char>> {
    match o {
        Some(s) => Some(s@),
        None => None,
    }
}

impl View for ApiClientBuilder {
    type V = BuilderView;

    closed spec fn view(&self) -> BuilderView {
        BuilderView {
            llm: self.llm,
            base_url: opt_view(self.base_url),
            api_key: opt_view(self.api_key),
            headers: self.headers@.map_values(|h: (String, String)| (h.0@, h.1@)),
            timeout_secs: self.timeout_secs,
        }
    }
}

/// A builder with nothing set.
pub open spec fn empty_builder() -> BuilderView {
    BuilderView {
        llm: None,
        base_url: None,
        api_key: None,
        headers: seq![],
        timeout_secs: None,
    }
}

/// The outcome of `build` on a builder's state.
pub open spec fn build_spec(b: BuilderView) -> Result<ClientView, ErrorView> {
    if b.llm is None {
        Err(ErrorView::ClientBuild("llm is required"@))
    } else if b.base_url is None {
        Err(ErrorView::ClientBuild("base_url is required"@))
    } else if b.api_key is None {
        Err(ErrorView::ClientBuild("api_key is required"@))
    } else {
        Ok(
            ClientView {
                llm: b.llm->Some_0,
                base_url: b.base_url->Some_0,
                api_key: b.api_key->Some_0,
                timeout_secs: match b.timeout_secs {
                    Some(t) => t,
                    None => 30,
                },
            },
        )
    }
}

/// The view of the outcome of `build`.
pub open spec fn build_result_view(r: Result<ApiClient, RagentError>) -> Result<ClientView, ErrorView> {
    match r {
        Ok(c) => Ok(c@),
        Err(e) => Err(e@),
    }
}

/// Whether an HTTP status code reports success (`2xx`).
pub open spec fn is_success_status(status: u16) -> bool {
    200 <= status <= 299
}

impl ApiClient {
    /// A builder with nothing set.
    pub fn builder() -> (b: ApiClientBuilder)
        ensures
            b@ == empty_builder(),
    {
        let b = ApiClientBuilder {
            llm: None,
            base_url: None,
            api_key: None,
            headers: Vec::new(),
            timeout_secs: None,
        };
        assert(b@.headers =~= seq![]);
        b
    }

    /// The provider the client talks to.
    pub fn llm(&self) -> (r: LlmType)
        ensures
            r == self@.llm,
    {
        self.llm
    }

    /// The URL requests are posted to.
    pub fn base_url(&self) -> (r: &str)
        ensures
            r@ == self@.base_url,
    {
        self.base_url.as_str()
    }

    /// The API key.
    pub fn api_key(&self) -> (r: &str)
        ensures
            r@ == self@.api_key,
    {
        self.api_key.as_str()
    }

    /// How long a request may take, in seconds.
    pub fn timeout_secs(&self) -> (r: u64)
        ensures
            r == self@.timeout_secs,
    {
        self.timeout_secs
    }

    /// The value of the `Authorization` header: `Bearer <api key>`.
    pub fn authorization(&self) -> (r: String)
        ensures
            r@ == "Bearer "@ + self@.api_key,
    {
        concat2("Bearer ", self.api_key.as_str())
    }

    /// Judges the server's answer: its body when the status reports success,
    /// otherwise the error that carries the status and the body.
    pub fn check_status(&self, status: u16, body: String) -> (r: Result<String, RagentError>)
        ensures
            is_success_status(status) ==> (r matches Ok(b) && b@ == body@),
            !is_success_status(status) ==> (r matches Err(e) && e@ == (ErrorView::ApiStatus {
                status,
                body: body@,
            })),
    {
        if 200 <= status && status <= 299 {
            Ok(body)
        } else {
            Err(RagentError::ApiStatus { status, body })
        }
    }

    /// The client the agent talks through: DeepSeek at `base_url` with
    /// `api_key`, and a 60 second timeout.
    pub fn for_agent(base_url: String, api_key: String) -> (r: ApiClient)
        ensures
            r@ == (ClientView {
                llm: LlmType::DeepSeek,
                base_url: base_url@,
                api_key: api_key@,
                timeout_secs: 60,
            }),
    {
        ApiClient { llm: LlmType::DeepSeek, base_url, api_key, timeout_secs: 60 }
    }

    /// The error for a body that could not be read as a response of the
    /// client's provider; `detail` is the reason.
    pub fn parse_failure(&self, detail: String) -> (r: RagentError)
        ensures
            r@ == (ErrorView::ApiParse { llm: self@.llm.name_spec(), e: detail@ }),
    {
        RagentError::ApiParse { llm: String::from_str(self.llm.as_str()), e: detail }
    }
}

impl Default for ApiClientBuilder {
    fn default() -> (b: ApiClientBuilder)
        ensures
            b@ == empty_builder(),
    {
        ApiClient::builder()
    }
}

impl ApiClientBuilder {
    /// Sets the provider by its name; an unknown name is refused.
    pub fn llm_type(self, llm_type: &str) -> (r: Result<ApiClientBuilder, RagentError>)
        ensures
            match LlmType::parse_spec(llm_type@) {
                Some(l) => r matches Ok(b) && b@ == (BuilderView { llm: Some(l), ..self@ }),
                None => r matches Err(e) && e@ == ErrorView::UnsupportedLlm(llm_type@),
            },
    {
        match LlmType::from_str(llm_type) {
            Ok(llm) => {
                let mut b = self;
                b.llm = Some(llm);
                Ok(b)
            },
            Err(_) => Err(RagentError::UnsupportedLlm(String::from_str(llm_type))),
        }
    }

    /// Sets the URL requests are posted to.
    pub fn set_base_url(self, url: String) -> (r: ApiClientBuilder)
        ensures
            r@ == (BuilderView { base_url: Some(url@), ..self@ }),
    {
        let mut b = self;
        b.base_url = Some(url);
        b
    }

    /// Sets the API key.
    pub fn api_key(self, key: String) -> (r: ApiClientBuilder)
        ensures
            r@ == (BuilderView { api_key: Some(key@), ..self@ }),
    {
        let mut b = self;
        b.api_key = Some(key);
        b
    }

    /// Adds a header.
    pub fn header(self, name: String, value: String) -> (r: ApiClientBuilder)
        ensures
            r@ == (BuilderView { headers: self@.headers.push((name@, value@)), ..self@ }),
    {
        let mut b = self;
        let ghost before = b.headers@;
        b.headers.push((name, value));
        proof {
            assert(b.headers@.map_values(|h: (String, String)| (h.0@, h.1@)) =~= before.map_values(
                |h: (String, String)| (h.0@, h.1@),
            ).push((name@, value@)));
        }
        b
    }

    /// Sets how long a request may take, in seconds.
    pub fn timeout(self, secs: u64) -> (r: ApiClientBuilder)
        ensures
            r@ == (BuilderView { timeout_secs: Some(secs), ..self@ }),
    {
        let mut b = self;
        b.timeout_secs = Some(secs);
        b
    }

    /// The client: the provider, the URL and the key must be set; the
    /// timeout is 30 seconds unless set.  Headers are not kept.
    pub fn build(self) -> (r: Result<ApiClient, RagentError>)
        ensures
            build_result_view(r) == build_spec(self@),
    {
        let llm = match self.llm {
            Some(l) => l,
            None => return Err(RagentError::ClientBuild(String::from_str("llm is required"))),
        };
        let base_url = match self.base_url {
            Some(u) => u,
            None => return Err(RagentError::ClientBuild(String::from_str("base_url is required"))),
        };
        let api_key = match self.api_key {
            Some(k) => k,
            None => return Err(RagentError::ClientBuild(String::from_str("api_key is required"))),
        };
        let timeout_secs = match self.timeout_secs {
            Some(t) => t,
            None => 30,
        };
        Ok(ApiClient { llm, base_url, api_key, timeout_secs })
    }
}

/// A builder fails exactly when the provider, the URL or the key is missing,
/// and a built client carries what was set: the provider, the URL, the key,
/// and the timeout that was set, or 30 seconds when none was.
pub proof fn law_build_succeeds_when_complete(b: BuilderView)
    ensures
        build_spec(b) is Ok <==> (b.llm is Some && b.base_url is Some && b.api_key is Some),
        build_spec(b) matches Ok(c) ==> c.llm == b.llm->Some_0 && c.base_url == b.base_url->Some_0
            && c.api_key == b.api_key->Some_0 && (b.timeout_secs is None ==> c.timeout_secs == 30)
            && (b.timeout_secs matches Some(t) ==> c.timeout_secs == t),
{
}

} // verus!
