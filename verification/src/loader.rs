//! The load pipeline: from raw image bytes to a complete load plan.

use vstd::prelude::*;

use crate::errors::LoadError;
use crate::header::{header_ok, parse_elf_header, spec_header};
use crate::phdrs::{parse_program_headers, spec_phdrs, table_ok};
use crate::segments::{
    loadables_of, placement_page_ok, placements_match, plan_error_of, plan_segments, Placement,
};

verus! {

/// Everything the firmware needs in order to materialize the image and
/// start it: the placements to allocate and fill, in table order, and the
/// entry address to jump to once they are in place.
#[derive(Clone, Debug)]
pub struct LoadPlan {
    /// The virtual address at which the loaded kernel is entered.
    pub entry: u64,
    /// The placement of every loadable segment, in table order.
    pub placements: Vec<Placement>,
}

/// The error the whole load is rejected with, if any: a `FormatError` for a
/// buffer without a well-formed header, a `BoundsError` for a
/// program-header table that leaves the buffer, and otherwise the first
/// error among the loadable segments.
pub open spec fn load_error_of(b: Seq<u8>) -> Option<LoadError> {
    if !header_ok(b) {
        Some(LoadError::FormatError)
    } else if !table_ok(spec_header(b), b.len() as int) {
        Some(LoadError::BoundsError)
    } else {
        plan_error_of(spec_phdrs(b, spec_header(b)), b.len() as int)
    }
}

/// Runs the whole load pipeline on an image buffer: header validation,
/// program-header enumeration, and segment planning.  Succeeds exactly when
/// no stage rejects, and then returns the entry address the header declares
/// together with one placement per loadable segment, each page-correct and
/// with its file region inside the buffer.  Performs no allocation beyond
/// the returned plan and never transfers control anywhere.
pub fn build_load_plan(buffer: &[u8]) -> (r: Result<LoadPlan, LoadError>)
    ensures
        r is Ok <==> load_error_of(buffer@) is None,
        r matches Err(e) ==> Some(e) == load_error_of(buffer@),
        r matches Ok(plan) ==> {
            &&& plan.entry == spec_header(buffer@).e_entry
            &&& placements_match(
                plan.placements@,
                loadables_of(spec_phdrs(buffer@, spec_header(buffer@))),
            )
            &&& forall|j: int|
                0 <= j < plan.placements@.len() ==> placement_page_ok(plan.placements@[j])
            &&& forall|j: int|
                0 <= j < plan.placements@.len() ==> (#[trigger] plan.placements@[j]).file_offset
                    + plan.placements@[j].file_size <= buffer@.len()
                    && plan.placements@[j].file_size <= plan.placements@[j].mem_size
        },
{
    let h = match parse_elf_header(buffer) {
        Ok(h) => h,
        Err(e) => {
            return Err(e);
        },
    };
    let table = match parse_program_headers(buffer, &h) {
        Ok(t) => t,
        Err(e) => {
            return Err(e);
        },
    };
    let placements = match plan_segments(buffer.len(), table.as_slice()) {
        Ok(ps) => ps,
        Err(e) => {
            return Err(e);
        },
    };
    Ok(LoadPlan { entry: h.e_entry, placements })
}

} // verus!
