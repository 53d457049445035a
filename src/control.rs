use vstd::prelude::*;

use crate::config::{find_preset, has_preset, preset_names, Config};
use crate::coordinator::Message;
use crate::text::views;

verus! {

/// Why a control request was refused.
#[derive(Debug, PartialEq, Eq)]
pub enum ControlError {
    /// No preset of the requested name exists.
    UnknownPreset,
}

/// The names of the presets that can be selected, in the configuration's
/// order.
pub fn available_presets(config: &Config) -> (r: Vec<String>)
    ensures
        views(r@) == preset_names(config.presets@),
{
    let mut out: Vec<String> = Vec::new();
    let mut i: usize = 0;
    while i < config.presets.len()
        invariant
            i <= config.presets.len(),
            views(out@) == preset_names(config.presets@).subrange(0, i as int),
        decreases config.presets.len() - i,
    {
        let ghost before = out@;
        let name = config.presets[i].0.clone();
        out.push(name);
        assert(views(out@) =~= views(before).push(config.presets@[i as int].0@));
        i = i + 1;
        assert(views(out@) =~= preset_names(config.presets@).subrange(0, i as int));
    }
    assert(preset_names(config.presets@).subrange(0, i as int) =~= preset_names(config.presets@));
    out
}

/// The message that asks the coordinator to select the preset `name`, or
/// `UnknownPreset` where no such preset exists; the coordinator is then not
/// asked at all.
pub fn set_current_preset(config: &Config, name: &str) -> (r: Result<Message, ControlError>)
    ensures
        r is Err <==> !has_preset(config.presets@, name@),
        r is Err ==> r == Err::<Message, ControlError>(ControlError::UnknownPreset),
        r matches Ok(m) ==> (m matches Message::SetPreset(n) && n@ == name@),
{
    match find_preset(&config.presets, name) {
        Some(_) => Ok(Message::SetPreset(String::from_str(name))),
        None => Err(ControlError::UnknownPreset),
    }
}

} // verus!
