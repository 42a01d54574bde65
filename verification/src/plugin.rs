//! The entry of the transform: the options that the host passes, and the
//! check that the build is a development build.
use crate::component::same_text;
use crate::syntax::Module;
use crate::transformer::{react_refresh, rewritten};
use vstd::prelude::*;

verus! {

/// The environment in which the transform runs without being asked twice.
pub const DEVELOPMENT: &'static str = "development";

/// What the host is told when the transform is refused.
pub const NOT_DEVELOPMENT_MESSAGE: &'static str =
    "swc-plugin-react-refresh transform should only be enabled in development environment.\nIf you want to override this check, pass `skipEnvCheck` as plugin options.";

/// The options of the transform.
#[derive(Debug, PartialEq, Eq)]
pub struct ReactRefreshOptions {
    /// The identifier under which the runtime knows the module.
    pub module_id: String,
    /// Run the transform in any environment.
    pub skip_env_check: Option<bool>,
}

/// Why the transform did not run.
#[derive(Clone, Copy, Debug, PartialEq, Eq, Structural)]
pub enum PluginError {
    /// The environment is not `development`, and the options do not say to
    /// skip the check.
    NotDevelopment,
}

impl PluginError {
    /// The words in which the host reports the error.
    pub fn message(&self) -> (r: String)
        ensures
            r@ == NOT_DEVELOPMENT_MESSAGE@,
    {
        String::from_str(NOT_DEVELOPMENT_MESSAGE)
    }
}

/// Whether the transform may run: the environment is `development`, or the
/// options skip the check.
pub open spec fn environment_allows(env_name: Seq<char>, skip_env_check: Option<bool>) -> bool {
    env_name == DEVELOPMENT@ || skip_env_check == Some(true)
}

/// Whether the transform may run in the environment `env_name`.
pub fn check_environment(env_name: &str, skip_env_check: Option<bool>) -> (r: Result<
    (),
    PluginError,
>)
    ensures
        r.is_ok() == environment_allows(env_name@, skip_env_check),
        r.is_err() ==> r == Err::<(), PluginError>(PluginError::NotDevelopment),
{
    let is_dev = same_text(env_name, DEVELOPMENT);
    let skip = match skip_env_check {
        Some(skip) => skip,
        None => false,
    };
    if !is_dev && !skip {
        Err(PluginError::NotDevelopment)
    } else {
        Ok(())
    }
}

/// Instruments `program` for the module that the options name, if the
/// environment allows it; else nothing is rewritten.
pub fn swc_react_refresh_plugin(
    program: Module,
    config: ReactRefreshOptions,
    env_name: &str,
) -> (r: Result<Module, PluginError>)
    ensures
        match r {
            Ok(m) => environment_allows(env_name@, config.skip_env_check) && m@ == rewritten(
                config.module_id@,
                program@,
            ),
            Err(e) => !environment_allows(env_name@, config.skip_env_check) && e
                == PluginError::NotDevelopment,
        },
{
    match check_environment(env_name, config.skip_env_check) {
        Ok(_) => {
            let mut runtime = react_refresh(config.module_id);
            Ok(runtime.fold_module(program))
        },
        Err(e) => Err(e),
    }
}

} // verus!
