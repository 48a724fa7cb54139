use vstd::prelude::*;

use crate::error::FaitheError;
use crate::offset::wrap_add;
use crate::pattern::{all_matches, Pattern};

verus! {

/// Basic information about a module of a process.
#[derive(Debug, Clone, Copy, PartialEq, Eq, Structural)]
pub struct ModuleInfo {
    /// Base address of the module.
    pub dll_base: usize,
    /// Size of the module's image in bytes.
    pub image_size: usize,
    /// Address of the module's entry point.
    pub entry_point: usize,
}

/// One module of a process, as a snapshot of the loaded modules lists it.
#[derive(Debug, Clone)]
pub struct ModuleEntry {
    /// Id of the process.
    pub process_id: u32,
    /// Base address of the module.
    pub base_address: usize,
    /// Size of the module in bytes.
    pub size: usize,
    /// Handle to the module.
    pub handle: usize,
    /// Name of the module.
    pub name: String,
    /// Full path to the module.
    pub path: String,
}

/// Index of the first entry named `name` in a module snapshot, or
/// `ModuleNotFound` when none is.
pub fn find_module_entry(entries: &[ModuleEntry], name: &str) -> (r: Result<usize, FaitheError>)
    ensures
        r is Err ==> r == Err::<usize, FaitheError>(FaitheError::ModuleNotFound)
            && forall|k: int| 0 <= k < entries@.len() ==> (#[trigger] entries@[k]).name@ != name@,
        r is Ok ==> r->Ok_0 < entries@.len() && entries@[r->Ok_0 as int].name@ == name@
            && forall|k: int| 0 <= k < r->Ok_0 ==> (#[trigger] entries@[k]).name@ != name@,
{
    let target = name.to_owned();
    let mut i: usize = 0;
    while i < entries.len()
        invariant
            i <= entries@.len(),
            target@ == name@,
            forall|k: int| 0 <= k < i ==> (#[trigger] entries@[k]).name@ != name@,
        decreases entries@.len() - i,
    {
        if entries[i].name == target {
            return Ok(i);
        }
        i += 1;
    }
    Err(FaitheError::ModuleNotFound)
}

/// Searches a module for `pat`. `module` is the module's information, or the
/// error its lookup gave, which is passed on; `image` is the module's mapped
/// image. A module without the pattern gives `Ok(None)`, and a match gives
/// its address: the module base plus the match's offset.
pub fn find_pattern(module: Result<ModuleInfo, FaitheError>, image: &[u8], pat: Pattern) -> (r: Result<Option<usize>, FaitheError>)
    ensures
        module is Err ==> r == Err::<Option<usize>, FaitheError>(module->Err_0),
        module is Ok && all_matches(pat@, image@).len() == 0 ==> r == Ok::<Option<usize>, FaitheError>(None),
        module is Ok && all_matches(pat@, image@).len() > 0 ==> r == Ok::<Option<usize>, FaitheError>(
            Some(wrap_add(module->Ok_0.dll_base, all_matches(pat@, image@)[0] as usize))),
{
    match module {
        Err(e) => Err(e),
        Ok(info) => match pat.find_first(image) {
            Some(i) => Ok(Some(info.dll_base.wrapping_add(i))),
            None => Ok(None),
        },
    }
}

} // verus!
