//! The event-driven driver: which filesystem events of a watch session lead
//! to a script, and which script. The session loop, the change
//! notifications and the dispatching are the caller's part; every decision
//! is made here, one event at a time, with no state carried across events.

use vstd::prelude::*;
use crate::audit::WorkUnit;
use crate::config::Config;
use crate::discover::spec_extension;
use crate::render::{spec_render_generic, render_generic_template, RenderError, RenderErrorModel};

verus! {

/// One debounced filesystem change, reduced to its kind and the name of the
/// touched file.
#[derive(Clone, Debug)]
pub enum WatchEvent {
    Created(String),
    Written(String),
    Removed(String),
    Renamed(String),
    Other,
}

/// The file name of an event a watch session reacts to: only newly created
/// or rewritten files trigger an evaluation.
pub open spec fn spec_reactive_name(e: WatchEvent) -> Option<Seq<char>> {
    match e {
        WatchEvent::Created(n) => Some(n@),
        WatchEvent::Written(n) => Some(n@),
        _ => None,
    }
}

/// Whether a reactive file name qualifies: it carries one of the configured
/// extensions.
pub open spec fn spec_qualifies(name: Seq<char>, cm: crate::config::ConfigModel) -> bool {
    match spec_extension(name) {
        Some(ext) => cm.load_options.extensions.contains(ext),
        None => false,
    }
}

/// Checks that a watch session may start with this configuration: the
/// method must evaluate file by file as changes come in, so the aggregate
/// method is rejected, as is the cosine-fit method, which cannot run
/// unattended on a single change.
pub fn session_start(config: &Config) -> (r: Result<(), String>)
    ensures
        match r {
            Ok(()) => !(config.method is SPPMethod) && !(config.method is CosFitMethod),
            Err(m) => (config.method is SPPMethod || config.method is CosFitMethod) && m@
                == "CosFitMethod and SPPMethod are not supported in watch mode."@,
        },
{
    match config.method {
        crate::config::MethodType::SPPMethod | crate::config::MethodType::CosFitMethod => Err(
            String::from_str("CosFitMethod and SPPMethod are not supported in watch mode."),
        ),
        _ => Ok(()),
    }
}

/// Decides one event: a create or write of a file with a configured
/// extension is re-rendered as a per-file script for exactly that file,
/// with no arm pairing; every other event is ignored. Fails only when a
/// substitution the script needs has no value.
pub fn watch_step(
    event: &WatchEvent,
    config: &Config,
    path: &str,
    result_file: &str,
    verbosity: u8,
) -> (r: Result<Option<WorkUnit>, RenderError>)
    ensures
        ({
            let reactive = spec_reactive_name(*event);
            let complete = config@.evaluate.reference_frequency is Some && config@.evaluate.order
                is Some;
            match r {
                Ok(None) => reactive is None || !spec_qualifies(reactive.unwrap(), config@),
                Ok(Some(u)) => reactive is Some && spec_qualifies(reactive.unwrap(), config@) && (
                complete || config.method is SPPMethod) && u.name@ == reactive.unwrap()
                    && u.script@ == spec_render_generic(
                    reactive.unwrap(),
                    path@,
                    config@,
                    result_file@,
                    verbosity,
                    false,
                    None,
                    None,
                ),
                Err(e) => reactive is Some && spec_qualifies(reactive.unwrap(), config@)
                    && !complete && !(config.method is SPPMethod) && e@ == (
                if config@.evaluate.reference_frequency is None {
                    RenderErrorModel::UndefinedVariable("reference_frequency"@)
                } else {
                    RenderErrorModel::UndefinedVariable("order"@)
                }),
            }
        }),
{
    let name: &String = match event {
        WatchEvent::Created(n) => n,
        WatchEvent::Written(n) => n,
        _ => {
            return Ok(None);
        },
    };
    let qualifies = match crate::discover::extension_of(name.as_str()) {
        Some(ext) => crate::discover::sequence_contains(
            &config.load_options.extensions,
            ext.as_str(),
        ),
        None => false,
    };
    if !qualifies {
        return Ok(None);
    }
    match render_generic_template(
        name.as_str(),
        path,
        config,
        result_file,
        verbosity,
        false,
        None,
        None,
    ) {
        Ok(script) => Ok(Some(WorkUnit { name: name.clone(), script })),
        Err(e) => Err(e),
    }
}

} // verus!
