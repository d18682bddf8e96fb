//! The direct-percent harvest: platforms whose OS layer already smooths
//! utilization hand in one ready-made percentage per core and a machine-wide
//! aggregate percentage of the OS's own making. This variant only labels and
//! orders them; it needs no cross-cycle state and never touches a store.

use vstd::prelude::*;

use crate::data::CpuData;
use crate::data::CpuHarvest;
use crate::data::CpuLabel;
use crate::data::UsageRatio;
use crate::data::spec_avg_record;
use crate::data::spec_core_record;
use crate::data::spec_offset;
use crate::data::spec_well_labelled;

verus! {

/// One direct-percent harvest: the aggregate record first when requested,
/// carrying the OS's own aggregate reading, then one record per core in
/// enumeration order, each carrying that core's reading unchanged.
#[verifier::loop_isolation(false)]
pub fn get_cpu_data_list(
    avg_cpu_usage: UsageRatio,
    cpu_data: &Vec<UsageRatio>,
    show_average_cpu: bool,
) -> (records: CpuHarvest)
    ensures
        spec_well_labelled(show_average_cpu, records@),
        records@.len() == spec_offset(show_average_cpu) + cpu_data@.len(),
        show_average_cpu ==> records@[0] == spec_avg_record(avg_cpu_usage),
        forall|i: int|
            0 <= i < cpu_data@.len() ==> records@[spec_offset(show_average_cpu) + i]
                == spec_core_record(i, #[trigger] cpu_data@[i]),
{
    let mut cpu_vec: Vec<CpuData> = Vec::new();
    if show_average_cpu {
        cpu_vec.push(
            CpuData { cpu_prefix: CpuLabel::Avg, cpu_count: None, cpu_usage: avg_cpu_usage },
        );
    }
    let mut itx: usize = 0;
    while itx < cpu_data.len()
        invariant
            itx <= cpu_data@.len(),
            cpu_vec@.len() == spec_offset(show_average_cpu) + itx,
            show_average_cpu ==> cpu_vec@[0] == spec_avg_record(avg_cpu_usage),
            forall|i: int|
                0 <= i < itx ==> cpu_vec@[spec_offset(show_average_cpu) + i] == spec_core_record(
                    i,
                    #[trigger] cpu_data@[i],
                ),
        decreases cpu_data@.len() - itx,
    {
        cpu_vec.push(
            CpuData { cpu_prefix: CpuLabel::Cpu, cpu_count: Some(itx), cpu_usage: cpu_data[itx] },
        );
        itx = itx + 1;
    }
    proof {
        assert forall|i: int|
            spec_offset(show_average_cpu) <= i < cpu_vec@.len() implies (#[trigger] cpu_vec@[i]).cpu_prefix
            == CpuLabel::Cpu && cpu_vec@[i].cpu_count == Some(
            (i - spec_offset(show_average_cpu)) as usize,
        ) by {
            let j: int = i - spec_offset(show_average_cpu);
            assert(cpu_vec@[i] == spec_core_record(j, cpu_data@[j]));
        }
    }
    cpu_vec
}

} // verus!
