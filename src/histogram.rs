use vstd::prelude::*;

use crate::binding::histogram_signature_spec;
use crate::dispatch::{ceil_div, workgroup_count, WORKGROUP_SIZE};
use crate::stage::{bindings_of, BoundResource, Command, ConfigError};

verus! {

/// The bin that a sample is counted in: its own value, with values past the last bin
/// counted in the last bin.
pub open spec fn bin_of(sample: u32, bin_count: u32) -> int {
    if sample < bin_count {
        sample as int
    } else {
        bin_count - 1
    }
}

/// How many of `samples` fall in bin `b`.
pub open spec fn count_in_bin(samples: Seq<u32>, bin_count: u32, b: int) -> nat
    decreases samples.len(),
{
    if samples.len() == 0 {
        0
    } else {
        count_in_bin(samples.drop_last(), bin_count, b) + if bin_of(samples.last(), bin_count) == b {
            1nat
        } else {
            0nat
        }
    }
}

/// The bin array after every one of `samples` has been counted into zeroed bins.
pub open spec fn bins_of(samples: Seq<u32>, bin_count: u32) -> Seq<u32> {
    Seq::new(bin_count as nat, |b: int| count_in_bin(samples, bin_count, b) as u32)
}

/// The sum of a sequence of counters.
pub open spec fn total(s: Seq<u32>) -> nat
    decreases s.len(),
{
    if s.len() == 0 {
        0
    } else {
        total(s.drop_last()) + s.last() as nat
    }
}

proof fn lemma_total_increment(s: Seq<u32>, k: int)
    requires
        0 <= k < s.len(),
        s[k] < u32::MAX,
    ensures
        total(s.update(k, (s[k] + 1) as u32)) == total(s) + 1,
    decreases s.len(),
{
    let t = s.update(k, (s[k] + 1) as u32);
    if k == s.len() - 1 {
        assert(t.drop_last() =~= s.drop_last());
    } else {
        lemma_total_increment(s.drop_last(), k);
        assert(t.drop_last() =~= s.drop_last().update(k, (s[k] + 1) as u32));
    }
}

proof fn lemma_total_zeros(n: nat)
    ensures
        total(Seq::new(n, |b: int| 0u32)) == 0,
    decreases n,
{
    if n > 0 {
        lemma_total_zeros((n - 1) as nat);
        assert(Seq::new(n, |b: int| 0u32).drop_last() =~= Seq::new((n - 1) as nat, |b: int| 0u32));
    }
}

proof fn lemma_count_bounded(samples: Seq<u32>, bin_count: u32, b: int)
    ensures
        count_in_bin(samples, bin_count, b) <= samples.len(),
    decreases samples.len(),
{
    if samples.len() > 0 {
        lemma_count_bounded(samples.drop_last(), bin_count, b);
    }
}

/// Counting one more sample adds one to its bin and leaves the others.
proof fn lemma_bins_push(samples: Seq<u32>, x: u32, bin_count: u32)
    requires
        bin_count > 0,
        samples.len() < u32::MAX,
    ensures
        bins_of(samples.push(x), bin_count) == bins_of(samples, bin_count).update(
            bin_of(x, bin_count),
            (bins_of(samples, bin_count)[bin_of(x, bin_count)] + 1) as u32,
        ),
        bins_of(samples, bin_count)[bin_of(x, bin_count)] < u32::MAX,
{
    let s2 = samples.push(x);
    assert(s2.drop_last() =~= samples);
    lemma_count_bounded(samples, bin_count, bin_of(x, bin_count));
    assert(bins_of(s2, bin_count) =~= bins_of(samples, bin_count).update(
        bin_of(x, bin_count),
        (bins_of(samples, bin_count)[bin_of(x, bin_count)] + 1) as u32,
    ));
}

/// Whatever the samples, the bins together hold each of them once: their total is the
/// number of samples, and with no samples every bin is zero.
pub proof fn lemma_histogram_total(samples: Seq<u32>, bin_count: u32)
    requires
        bin_count > 0,
        samples.len() <= u32::MAX,
    ensures
        total(bins_of(samples, bin_count)) == samples.len(),
        samples.len() == 0 ==> forall|b: int|
            0 <= b < bin_count ==> #[trigger] bins_of(samples, bin_count)[b] == 0,
    decreases samples.len(),
{
    if samples.len() == 0 {
        assert(bins_of(samples, bin_count) =~= Seq::new(bin_count as nat, |b: int| 0u32));
        lemma_total_zeros(bin_count as nat);
    } else {
        let init = samples.drop_last();
        lemma_histogram_total(init, bin_count);
        lemma_bins_push(init, samples.last(), bin_count);
        assert(init.push(samples.last()) =~= samples);
        lemma_total_increment(bins_of(init, bin_count), bin_of(samples.last(), bin_count));
    }
}

/// The counts that the histogram kernel leaves in zeroed bins for `samples`; fails with
/// `NoBins` for a histogram of no bins.
pub fn histogram(samples: &Vec<u32>, bin_count: u32) -> (r: Result<Vec<u32>, ConfigError>)
    requires
        samples@.len() <= u32::MAX,
    ensures
        bin_count == 0 ==> r == Err::<Vec<u32>, ConfigError>(ConfigError::NoBins),
        bin_count > 0 ==> (r matches Ok(bins) && bins@ == bins_of(samples@, bin_count) && total(bins@)
            == samples@.len()),
{
    if bin_count == 0 {
        return Err(ConfigError::NoBins);
    }
    let mut bins: Vec<u32> = Vec::new();
    let mut b: u32 = 0;
    while b < bin_count
        invariant
            b <= bin_count,
            bins@ =~= Seq::new(b as nat, |k: int| 0u32),
        decreases bin_count - b,
    {
        bins.push(0);
        b = b + 1;
    }
    assert(bins@ =~= bins_of(samples@.take(0), bin_count));
    let mut i: usize = 0;
    while i < samples.len()
        invariant
            bin_count > 0,
            i <= samples@.len(),
            samples@.len() <= u32::MAX,
            bins@ == bins_of(samples@.take(i as int), bin_count),
        decreases samples@.len() - i,
    {
        let x = samples[i];
        let k: usize = if x < bin_count {
            x as usize
        } else {
            (bin_count - 1) as usize
        };
        proof {
            lemma_bins_push(samples@.take(i as int), x, bin_count);
            assert(samples@.take(i as int).push(x) =~= samples@.take(i + 1 as int));
        }
        let c = bins[k];
        bins.set(k, c + 1);
        i = i + 1;
    }
    assert(samples@.take(i as int) =~= samples@);
    proof {
        lemma_histogram_total(samples@, bin_count);
    }
    Ok(bins)
}

/// The histogram kernel bound to its input samples and bin array.
pub struct HistogramStage {
    pub kernel: u32,
    pub bind_group: u32,
    pub resources: Vec<BoundResource>,
    pub sample_count: u64,
    pub bin_count: u32,
}

impl HistogramStage {
    /// What `record` appends.
    pub open spec fn commands(&self) -> Seq<Command> {
        seq![
            Command::SetKernel { kernel: self.kernel },
            Command::SetBindGroup { index: 0, group: self.bind_group },
            Command::Dispatch {
                x: ceil_div(self.sample_count as int, WORKGROUP_SIZE as int) as u64,
                y: 1,
                z: 1,
            },
        ]
    }

    /// Binds the histogram kernel to `resources` for `sample_count` samples and `bin_count`
    /// bins. Fails with `BindingMismatch` unless the resources present the kernel's signature
    /// exactly, and then with `NoBins` when `bin_count` is zero.
    pub fn build_histogram(
        kernel: u32,
        bind_group: u32,
        resources: Vec<BoundResource>,
        sample_count: u64,
        bin_count: u32,
    ) -> (r: Result<HistogramStage, ConfigError>)
        ensures
            bindings_of(resources@) != histogram_signature_spec() ==> r == Err::<
                HistogramStage,
                ConfigError,
            >(ConfigError::BindingMismatch),
            bindings_of(resources@) == histogram_signature_spec() && bin_count == 0 ==> r == Err::<
                HistogramStage,
                ConfigError,
            >(ConfigError::NoBins),
            bindings_of(resources@) == histogram_signature_spec() && bin_count > 0 ==> (r matches Ok(
                s,
            ) && s.kernel == kernel && s.bind_group == bind_group && s.resources@ == resources@
                && s.sample_count == sample_count && s.bin_count == bin_count),
    {
        let declared = crate::binding::histogram_signature();
        let mut supplied: Vec<crate::binding::BindingSlot> = Vec::new();
        let mut i: usize = 0;
        while i < resources.len()
            invariant
                i <= resources@.len(),
                supplied@ == bindings_of(resources@.take(i as int)),
            decreases resources@.len() - i,
        {
            supplied.push(resources[i].binding);
            i = i + 1;
            assert(bindings_of(resources@.take(i as int)) =~= bindings_of(
                resources@.take(i - 1 as int),
            ).push(resources@[i - 1 as int].binding));
        }
        assert(resources@.take(resources@.len() as int) =~= resources@);
        if !crate::binding::signatures_match(&declared, &supplied) {
            return Err(ConfigError::BindingMismatch);
        }
        if bin_count == 0 {
            return Err(ConfigError::NoBins);
        }
        Ok(HistogramStage { kernel, bind_group, resources, sample_count, bin_count })
    }

    /// Appends: select the kernel, bind its resources at index 0, and dispatch
    /// `ceil(sample_count / 256)` workgroups.
    pub fn record(&self, rec: &mut Vec<Command>)
        ensures
            final(rec)@ == old(rec)@ + self.commands(),
    {
        let x = workgroup_count(self.sample_count);
        rec.push(Command::SetKernel { kernel: self.kernel });
        rec.push(Command::SetBindGroup { index: 0, group: self.bind_group });
        rec.push(Command::Dispatch { x, y: 1, z: 1 });
        assert(rec@ =~= old(rec)@ + self.commands());
    }
}

} // verus!
