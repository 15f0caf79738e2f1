//! The configuration router: initialization and self-test. Writing the
//! configuration file is outside work, so the initialization sequence
//! receives it as a `writer` closure and only decides what is written
//! and in which order the steps run.

use vstd::prelude::*;

use crate::domain::{ActionErr, ActionErrType, ActionResponse, Settings, Setup};

verus! {

/// The name of the configuration file, relative to the working directory.
pub const CONFIG_FILE: &'static str = "app.conf";

/// The initialization sequence: write the configuration content through
/// `writer` (which must create the configuration file when it is absent),
/// then create the database schema and default owner. The first failing
/// step aborts the rest and surfaces its error; nothing already done is
/// rolled back.
pub fn initialize_setup<F: Fn(String) -> bool>(settings: &Settings, writer: F) -> (r: Result<
    ActionResponse,
    ActionErr,
>)
    requires
        forall|content: String| #[trigger] call_requires(writer, (content,)),
    ensures
        match r {
            Ok(resp) => resp is Done,
            Err(e) => e.spec_error_type() is UnableToInitialize && e.spec_msg()
                == "Unable to initizlize application, contact support"@,
        },
{
    let write_result = settings.write_default_config(writer);
    match write_result {
        Err(e) => Err(e),
        Ok(_) => match settings.initalize_db() {
            Err(e) => Err(e),
            Ok(_) => Ok(ActionResponse::Done),
        },
    }
}

/// Routes a configuration request: `Init` runs the initialization
/// sequence and is never gated; `Test` requires saved settings and runs
/// the health probe against the resolved database.
pub fn config_router<F: Fn(String) -> bool>(
    configuration: &Settings,
    setup: Setup,
    writer: F,
) -> (r: Result<ActionResponse, ActionErr>)
    requires
        forall|content: String| #[trigger] call_requires(writer, (content,)),
    ensures
        match setup {
            Setup::Init => match r {
                Ok(resp) => resp is Done,
                Err(e) => e.spec_error_type() is UnableToInitialize,
            },
            Setup::Test => match r {
                Ok(resp) => configuration.is_saved && resp is Done,
                Err(e) => if configuration.is_saved {
                    e.spec_error_type() is InitNotAvailable && e.spec_msg()
                        == "Please initialize application,use help"@
                } else {
                    e.spec_error_type() is UnableToInitialize && e.spec_msg()
                        == "Database check has failed"@
                },
            },
        },
{
    match setup {
        Setup::Init => initialize_setup(configuration, writer),
        Setup::Test => {
            if configuration.is_config_available() {
                configuration.test_setup(configuration.get_db())
            } else {
                Err(ActionErr::build(ActionErrType::TestFailed))
            }
        },
    }
}

} // verus!
