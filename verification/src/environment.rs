use vstd::prelude::*;

verus! {

/// Which deployment of the service a client talks to.
#[derive(Debug, Clone)]
pub enum Environment {
    Production,
    Stage,
    /// Another deployment, by its base URL.
    Custom(String),
}

/// The mathematical value of an [`Environment`].
pub enum EnvironmentView {
    Production,
    Stage,
    Custom(Seq<char>),
}

impl DeepView for Environment {
    type V = EnvironmentView;

    open spec fn deep_view(&self) -> EnvironmentView {
        match self {
            Environment::Production => EnvironmentView::Production,
            Environment::Stage => EnvironmentView::Stage,
            Environment::Custom(url) => EnvironmentView::Custom(url@),
        }
    }
}

impl EnvironmentView {
    /// The URL under which every path of the deployment lies.
    pub open spec fn base_url(self) -> Seq<char> {
        match self {
            EnvironmentView::Production => "https://api.catapult.inetwork.com"@,
            EnvironmentView::Stage => "https://api.stage.catapult.inetwork.com"@,
            EnvironmentView::Custom(url) => url,
        }
    }
}

impl Environment {
    /// The URL under which every path of the deployment lies.
    pub fn get_base_url(&self) -> (r: String)
        ensures
            r@ == self.deep_view().base_url(),
    {
        match self {
            Environment::Production => "https://api.catapult.inetwork.com".to_owned(),
            Environment::Stage => "https://api.stage.catapult.inetwork.com".to_owned(),
            Environment::Custom(url) => url.clone(),
        }
    }
}

} // verus!
