use vstd::prelude::*;
use crate::api::{Client, Config, Datamaxi, Request, is_get};
use crate::endpoint::Endpoint;
use crate::query::{ParamKey, Params};

verus! {

/// Search interest over time, from Google Trends.
#[derive(Clone, Debug)]
pub struct GoogleTrend {
    pub client: Client,
}

impl GoogleTrend {
    /// The supported keywords.
    pub fn keywords(&self) -> (r: Request)
        ensures
            is_get(r, self.client, Endpoint::GoogleTrendKeywords, seq![]),
    {
        self.client.get(Endpoint::GoogleTrendKeywords, &Params::new())
    }

    /// The trend of `keyword`: rows of text cells.
    pub fn get(&self, keyword: &str) -> (r: Request)
        ensures
            is_get(r, self.client, Endpoint::GoogleTrend, seq![(ParamKey::Keyword, keyword@)]),
    {
        let mut params = Params::new();
        params.insert(ParamKey::Keyword, keyword.to_owned());
        assert(params@ =~= seq![(ParamKey::Keyword, keyword@)]);
        self.client.get(Endpoint::GoogleTrend, &params)
    }
}

impl Datamaxi for GoogleTrend {
    open spec fn api_client(&self) -> Client {
        self.client
    }

    fn new(api_key: String) -> GoogleTrend {
        GoogleTrend { client: Client::new(Config { base_url: None, api_key }) }
    }

    fn new_with_base_url(api_key: String, base_url: String) -> GoogleTrend {
        GoogleTrend { client: Client::new(Config { base_url: Some(base_url), api_key }) }
    }
}

} // verus!
