//! Game settings.
use vstd::prelude::*;

verus! {

/// Reports that the game settings changed and are to be written out.
pub struct GameSettingChanged;

} // verus!
