//! Where the backend lives and on whose behalf it is called by default.

use crate::models::UserIdT;
use std::sync::Arc;
use vstd::prelude::*;
use vstd::string::*;

verus! {

/// The addresses of the backend and the users that stand in when none is
/// signed in.
#[derive(Debug)]
pub struct AppConfigT {
    pub local_backend_api: String,
    pub local_default_user: UserIdT,
    pub remote_backend_api: String,
    pub remote_default_user: UserIdT,
}

impl Default for AppConfigT {
    fn default() -> (config: Self)
        ensures
            config.local_backend_api@ == Seq::<char>::empty(),
            config.local_default_user@ == Seq::<char>::empty(),
            config.remote_backend_api@ == Seq::<char>::empty(),
            config.remote_default_user@ == Seq::<char>::empty(),
    {
        AppConfigT {
            local_backend_api: String::new(),
            local_default_user: String::new(),
            remote_backend_api: String::new(),
            remote_default_user: String::new(),
        }
    }
}

impl Clone for AppConfigT {
    fn clone(&self) -> (copy: Self)
        ensures
            copy.local_backend_api@ == self.local_backend_api@,
            copy.local_default_user@ == self.local_default_user@,
            copy.remote_backend_api@ == self.remote_backend_api@,
            copy.remote_default_user@ == self.remote_default_user@,
    {
        AppConfigT {
            local_backend_api: self.local_backend_api.clone(),
            local_default_user: self.local_default_user.clone(),
            remote_backend_api: self.remote_backend_api.clone(),
            remote_default_user: self.remote_default_user.clone(),
        }
    }
}

/// The configuration as the request handlers share it.
pub type AppConfig = Arc<AppConfigT>;

/// The configuration of this deployment.
pub fn load_config() -> (config: AppConfig)
    ensures
        config.local_backend_api@ == "http://localhost:8000/api/v0"@,
        config.local_default_user@ == "fa160d0b-2922-496e-a7b0-abc133c48ca7"@,
        config.remote_backend_api@ == "http://localhost:8000/api/v0"@,
        config.remote_default_user@ == "remoteuser"@,
{
    Arc::new(
        AppConfigT {
            remote_backend_api: String::from_str("http://localhost:8000/api/v0"),
            local_default_user: String::from_str("fa160d0b-2922-496e-a7b0-abc133c48ca7"),
            local_backend_api: String::from_str("http://localhost:8000/api/v0"),
            remote_default_user: String::from_str("remoteuser"),
        },
    )
}

} // verus!
