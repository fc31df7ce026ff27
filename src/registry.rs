use vstd::prelude::*;
use crate::classify::{
    observation_of, observe, HttpMethod, RequestInfo, RoutePath, ServiceMetrics, StatusFamily,
};

verus! {

/// Upper bounds, in milliseconds, of the finite duration buckets.
pub const BUCKET_BOUNDS_MS: [u64; 11] = [5, 10, 25, 50, 100, 250, 500, 1000, 2500, 5000, 10000];

/// Finite buckets plus the unbounded one.
pub const NUM_BUCKETS: usize = 12;

/// One counter per (method, status family).
pub const NUM_STATUS_KEYS: usize = 10;

/// One distribution per (status family, method, route).
pub const NUM_DURATION_KEYS: usize = 20;

/// The registry's state, as numbers.
pub struct RegistryView {
    pub incoming: int,
    /// Indexed by `status_key`.
    pub status: Seq<int>,
    /// Cumulative bucket counts, indexed by `bucket_slot`.
    pub buckets: Seq<int>,
    /// Sum of durations, indexed by `duration_key`.
    pub sums: Seq<int>,
    /// Number of durations, indexed by `duration_key`.
    pub counts: Seq<int>,
}

pub open spec fn family_index(f: StatusFamily) -> int {
    match f {
        StatusFamily::Informational => 0,
        StatusFamily::Success => 1,
        StatusFamily::Redirection => 2,
        StatusFamily::ClientError => 3,
        StatusFamily::ServerError => 4,
    }
}

pub open spec fn method_index(m: HttpMethod) -> int {
    match m {
        HttpMethod::Get => 0,
        HttpMethod::Post => 1,
    }
}

pub open spec fn route_index(p: RoutePath) -> int {
    match p {
        RoutePath::Users => 0,
        RoutePath::Invalid => 1,
    }
}

pub open spec fn status_key(m: HttpMethod, f: StatusFamily) -> int {
    method_index(m) * 5 + family_index(f)
}

pub open spec fn duration_key(f: StatusFamily, m: HttpMethod, p: RoutePath) -> int {
    family_index(f) * 4 + method_index(m) * 2 + route_index(p)
}

pub open spec fn bucket_slot(key: int, j: int) -> int {
    key * NUM_BUCKETS + j
}

/// Upper bound of finite bucket `j`.
pub open spec fn bucket_bound(j: int) -> u64 {
    BUCKET_BOUNDS_MS[j]
}

/// Whether a duration falls in cumulative bucket `j` (the last one has no bound).
pub open spec fn in_bucket(d: u64, j: int) -> bool {
    j == 11 || (0 <= j < 11 && d <= bucket_bound(j))
}

/// Counters stop at the largest `u64`.
pub open spec fn sat(x: int) -> int {
    if x > u64::MAX {
        u64::MAX as int
    } else {
        x
    }
}

pub open spec fn in_range(x: int) -> bool {
    0 <= x <= u64::MAX
}

pub open spec fn all_in_range(s: Seq<int>) -> bool {
    forall|i: int| 0 <= i < s.len() ==> in_range(#[trigger] s[i])
}

/// The shape of the state, and every counter a `u64`.
pub open spec fn view_wf(v: RegistryView) -> bool {
    &&& in_range(v.incoming)
    &&& all_in_range(v.status)
    &&& all_in_range(v.buckets)
    &&& all_in_range(v.sums)
    &&& all_in_range(v.counts)
    &&& v.status.len() == NUM_STATUS_KEYS
    &&& v.buckets.len() == NUM_DURATION_KEYS * NUM_BUCKETS
    &&& v.sums.len() == NUM_DURATION_KEYS
    &&& v.counts.len() == NUM_DURATION_KEYS
}

/// The state after recording one observation: the total grows by one, the
/// counter of its (method, family) by one, and its duration joins the
/// distribution of its (family, method, route).
pub open spec fn recorded(v: RegistryView, o: ServiceMetrics) -> RegistryView {
    let sk = status_key(o.method, o.status_family);
    let dk = duration_key(o.status_family, o.method, o.path);
    RegistryView {
        incoming: sat(v.incoming + 1),
        status: v.status.update(sk, sat(v.status[sk] + 1)),
        buckets: Seq::new(
            v.buckets.len(),
            |i: int|
                if i / (NUM_BUCKETS as int) == dk && in_bucket(o.duration_ms, i % (NUM_BUCKETS as int)) {
                    sat(v.buckets[i] + 1)
                } else {
                    v.buckets[i]
                },
        ),
        sums: v.sums.update(dk, sat(v.sums[dk] + o.duration_ms)),
        counts: v.counts.update(dk, sat(v.counts[dk] + 1)),
    }
}

/// The state after recording each observation of `obs` in turn.
pub open spec fn recorded_all(v: RegistryView, obs: Seq<ServiceMetrics>) -> RegistryView
    decreases obs.len(),
{
    if obs.len() == 0 {
        v
    } else {
        recorded(recorded_all(v, obs.drop_last()), obs.last())
    }
}

/// No counter of `w` is below the same counter of `v`.
pub open spec fn no_decrease(v: RegistryView, w: RegistryView) -> bool {
    &&& view_wf(v) && view_wf(w)
    &&& v.incoming <= w.incoming
    &&& forall|i: int| 0 <= i < v.status.len() ==> v.status[i] <= w.status[i]
    &&& forall|i: int| 0 <= i < v.buckets.len() ==> v.buckets[i] <= w.buckets[i]
    &&& forall|i: int| 0 <= i < v.sums.len() ==> v.sums[i] <= w.sums[i]
    &&& forall|i: int| 0 <= i < v.counts.len() ==> v.counts[i] <= w.counts[i]
}

pub open spec fn ints(s: Seq<u64>) -> Seq<int> {
    s.map_values(|x: u64| x as int)
}

/// Process-wide request metrics: a total, a counter per (method, status
/// family) and a duration distribution with fixed buckets per (status family,
/// method, route). Counters only grow.
pub struct MetricsRegistry {
    incoming_requests: u64,
    status_codes: Vec<u64>,
    duration_buckets: Vec<u64>,
    duration_sums: Vec<u64>,
    duration_counts: Vec<u64>,
}

impl View for MetricsRegistry {
    type V = RegistryView;

    closed spec fn view(&self) -> RegistryView {
        RegistryView {
            incoming: self.incoming_requests as int,
            status: ints(self.status_codes@),
            buckets: ints(self.duration_buckets@),
            sums: ints(self.duration_sums@),
            counts: ints(self.duration_counts@),
        }
    }
}

fn zeros(n: usize) -> (r: Vec<u64>)
    ensures
        r@.len() == n,
        forall|i: int| 0 <= i < n ==> r@[i] == 0,
{
    let mut r: Vec<u64> = Vec::new();
    while r.len() < n
        invariant
            r@.len() <= n,
            forall|i: int| 0 <= i < r@.len() ==> r@[i] == 0,
        decreases n - r@.len(),
    {
        r.push(0);
    }
    r
}

fn family_index_exec(f: StatusFamily) -> (r: usize)
    ensures
        r == family_index(f),
{
    match f {
        StatusFamily::Informational => 0,
        StatusFamily::Success => 1,
        StatusFamily::Redirection => 2,
        StatusFamily::ClientError => 3,
        StatusFamily::ServerError => 4,
    }
}

fn method_index_exec(m: HttpMethod) -> (r: usize)
    ensures
        r == method_index(m),
{
    match m {
        HttpMethod::Get => 0,
        HttpMethod::Post => 1,
    }
}

fn route_index_exec(p: RoutePath) -> (r: usize)
    ensures
        r == route_index(p),
{
    match p {
        RoutePath::Users => 0,
        RoutePath::Invalid => 1,
    }
}

/// The first cumulative bucket that a duration falls in.
fn first_bucket(d: u64) -> (r: usize)
    ensures
        r < NUM_BUCKETS,
        forall|j: int| 0 <= j < NUM_BUCKETS ==> (in_bucket(d, j) <==> r <= j),
{
    let mut j: usize = 0;
    while j < 11
        invariant
            j <= 11,
            forall|k: int| 0 <= k < j ==> d > BUCKET_BOUNDS_MS[k],
        decreases 11 - j,
    {
        if d <= BUCKET_BOUNDS_MS[j] {
            assert forall|k: int| 0 <= k < NUM_BUCKETS implies (in_bucket(d, k) <==> j <= k) by {
                if j <= k && k < 11 {
                    assert(BUCKET_BOUNDS_MS[j as int] <= BUCKET_BOUNDS_MS[k]);
                }
            }
            return j;
        }
        j = j + 1;
    }
    j
}

/// Adds one, saturating, to the entries `base + first .. base + 12` of `b`.
fn bump_from(b: &mut Vec<u64>, base: usize, first: usize)
    requires
        first < NUM_BUCKETS,
        base + NUM_BUCKETS <= old(b)@.len(),
    ensures
        final(b)@.len() == old(b)@.len(),
        forall|i: int|
            0 <= i < old(b)@.len() ==> final(b)@[i] == if base + first <= i < base + NUM_BUCKETS {
                old(b)@[i].saturating_add(1)
            } else {
                old(b)@[i]
            },
{
    let ghost before = b@;
    let n = b.len();
    let mut j: usize = first;
    while j < NUM_BUCKETS
        invariant
            n == before.len(),
            first <= j <= NUM_BUCKETS,
            base + NUM_BUCKETS <= before.len(),
            b@.len() == before.len(),
            forall|i: int|
                0 <= i < before.len() ==> b@[i] == if base + first <= i < base + j {
                    before[i].saturating_add(1)
                } else {
                    before[i]
                },
        decreases NUM_BUCKETS - j,
    {
        let x = b[base + j].saturating_add(1);
        b.set(base + j, x);
        j = j + 1;
    }
}

impl MetricsRegistry {
    #[verifier::type_invariant]
    pub open spec fn shape(&self) -> bool {
        self.wf()
    }

    /// One slot per label set and bucket.
    pub closed spec fn wf(&self) -> bool {
        &&& self.status_codes@.len() == NUM_STATUS_KEYS
        &&& self.duration_buckets@.len() == NUM_DURATION_KEYS * NUM_BUCKETS
        &&& self.duration_sums@.len() == NUM_DURATION_KEYS
        &&& self.duration_counts@.len() == NUM_DURATION_KEYS
    }

    /// A registry with every counter at zero.
    pub fn new() -> (r: MetricsRegistry)
        ensures
            r.wf(),
            view_wf(r@),
            r@.incoming == 0,
            forall|i: int| 0 <= i < NUM_STATUS_KEYS ==> r@.status[i] == 0,
            forall|i: int| 0 <= i < NUM_DURATION_KEYS * NUM_BUCKETS ==> r@.buckets[i] == 0,
            forall|i: int| 0 <= i < NUM_DURATION_KEYS ==> r@.sums[i] == 0,
            forall|i: int| 0 <= i < NUM_DURATION_KEYS ==> r@.counts[i] == 0,
    {
        MetricsRegistry {
            incoming_requests: 0,
            status_codes: zeros(NUM_STATUS_KEYS),
            duration_buckets: zeros(NUM_DURATION_KEYS * NUM_BUCKETS),
            duration_sums: zeros(NUM_DURATION_KEYS),
            duration_counts: zeros(NUM_DURATION_KEYS),
        }
    }

    /// Records one observation: the total, its status counter and its
    /// distribution all move in the one call. Counters saturate at the
    /// largest `u64`.
    pub fn record(&mut self, o: &ServiceMetrics)
        ensures
            final(self).wf(),
            view_wf(old(self)@),
            view_wf(final(self)@),
            final(self)@ == recorded(old(self)@, *o),
    {
        proof { use_type_invariant(&*self); }
        let ghost v = self@;
        let fam = family_index_exec(o.status_family);
        let met = method_index_exec(o.method);
        let sk = met * 5 + fam;
        let dk = fam * 4 + met * 2 + route_index_exec(o.path);
        let incoming = self.incoming_requests.saturating_add(1);
        let mut codes = self.status_codes.clone();
        let s = codes[sk].saturating_add(1);
        proof { lemma_ints_update(codes@, sk as int, s); }
        codes.set(sk, s);
        let mut counts = self.duration_counts.clone();
        let c = counts[dk].saturating_add(1);
        proof { lemma_ints_update(counts@, dk as int, c); }
        counts.set(dk, c);
        let mut sums = self.duration_sums.clone();
        let t = sums[dk].saturating_add(o.duration_ms);
        proof { lemma_ints_update(sums@, dk as int, t); }
        sums.set(dk, t);
        let first = first_bucket(o.duration_ms);
        let mut buckets = self.duration_buckets.clone();
        bump_from(&mut buckets, dk * 12, first);
        *self = MetricsRegistry {
            incoming_requests: incoming,
            status_codes: codes,
            duration_buckets: buckets,
            duration_sums: sums,
            duration_counts: counts,
        };
        let ghost w = recorded(v, *o);
        assert(sk as int == status_key(o.method, o.status_family));
        assert(dk as int == duration_key(o.status_family, o.method, o.path));
        assert(self@.status =~= w.status);
        assert(self@.sums =~= w.sums);
        assert(self@.counts =~= w.counts);
        assert forall|i: int| 0 <= i < w.buckets.len() implies self@.buckets[i] == w.buckets[i] by {
            let k = i / 12;
            let jj = i % 12;
            assert(i == k * 12 + jj);
            if k == dk {
                assert(in_bucket(o.duration_ms, jj) <==> first <= jj);
            }
        }
        assert(self@.buckets =~= w.buckets);
    }

    /// The status counter stored at index `k`.
    pub fn status_at(&self, k: usize) -> (r: u64)
        requires
            k < NUM_STATUS_KEYS,
        ensures
            r == self@.status[k as int],
    {
        proof { use_type_invariant(self); }
        self.status_codes[k]
    }

    /// The cumulative bucket count stored at slot `i`.
    pub fn bucket_at(&self, i: usize) -> (r: u64)
        requires
            i < NUM_DURATION_KEYS * NUM_BUCKETS,
        ensures
            r == self@.buckets[i as int],
    {
        proof { use_type_invariant(self); }
        self.duration_buckets[i]
    }

    /// The duration sum stored at index `k`.
    pub fn sum_at(&self, k: usize) -> (r: u64)
        requires
            k < NUM_DURATION_KEYS,
        ensures
            r == self@.sums[k as int],
    {
        proof { use_type_invariant(self); }
        self.duration_sums[k]
    }

    /// The duration count stored at index `k`.
    pub fn count_at(&self, k: usize) -> (r: u64)
        requires
            k < NUM_DURATION_KEYS,
        ensures
            r == self@.counts[k as int],
    {
        proof { use_type_invariant(self); }
        self.duration_counts[k]
    }

    /// The total number of recorded requests.
    pub fn incoming_requests(&self) -> (r: u64)
        ensures
            r == self@.incoming,
    {
        self.incoming_requests
    }

    /// How many recorded requests had this method and status family.
    pub fn status_count(&self, m: HttpMethod, f: StatusFamily) -> (r: u64)
        ensures
            r == self@.status[status_key(m, f)],
    {
        proof { use_type_invariant(self); }
        self.status_codes[method_index_exec(m) * 5 + family_index_exec(f)]
    }

    /// How many recorded requests with these labels took at most the bound of
    /// bucket `j` (any duration, for the last bucket).
    pub fn duration_bucket(&self, f: StatusFamily, m: HttpMethod, p: RoutePath, j: usize) -> (r: u64)
        requires
            j < NUM_BUCKETS,
        ensures
            r == self@.buckets[bucket_slot(duration_key(f, m, p), j as int)],
    {
        proof { use_type_invariant(self); }
        let dk = family_index_exec(f) * 4 + method_index_exec(m) * 2 + route_index_exec(p);
        self.duration_buckets[dk * 12 + j]
    }

    /// The sum of the durations recorded with these labels.
    pub fn duration_sum(&self, f: StatusFamily, m: HttpMethod, p: RoutePath) -> (r: u64)
        ensures
            r == self@.sums[duration_key(f, m, p)],
    {
        proof { use_type_invariant(self); }
        self.duration_sums[family_index_exec(f) * 4 + method_index_exec(m) * 2 + route_index_exec(p)]
    }

    /// The number of durations recorded with these labels.
    pub fn duration_count(&self, f: StatusFamily, m: HttpMethod, p: RoutePath) -> (r: u64)
        ensures
            r == self@.counts[duration_key(f, m, p)],
    {
        proof { use_type_invariant(self); }
        self.duration_counts[family_index_exec(f) * 4 + method_index_exec(m) * 2 + route_index_exec(p)]
    }
}

/// A backend that renders the current metrics in a text exposition format:
/// one `# HELP` and one `# TYPE` line per metric, then one line per label set.
/// Rendering leaves the metrics as they are.
pub trait MetricsExporter: Clone + Send {
    fn export(&self) -> Vec<u8>;
}

/// The step after a request completes: record its observation unless it was
/// a request for the metrics themselves or could not be classified.
pub fn record_metrics(registry: &mut MetricsRegistry, info: &RequestInfo)
    ensures
        final(registry).wf(),
        view_wf(old(registry)@),
        view_wf(final(registry)@),
        final(registry)@ == match observation_of(*info) {
            Some(o) => recorded(old(registry)@, o),
            None => old(registry)@,
        },
{
    proof { use_type_invariant(&*registry); }
    if let Some(o) = observe(info) {
        registry.record(&o);
    }
}

/// Recording two observations gives the same state in either order, so the
/// counters and distributions depend only on which observations were made.
pub proof fn lemma_record_commutes(v: RegistryView, a: ServiceMetrics, b: ServiceMetrics)
    requires
        view_wf(v),
    ensures
        recorded(recorded(v, a), b) == recorded(recorded(v, b), a),
{
    let l = recorded(recorded(v, a), b);
    let r = recorded(recorded(v, b), a);
    assert(l.status =~= r.status);
    assert(l.buckets =~= r.buckets);
    assert(l.sums =~= r.sums);
    assert(l.counts =~= r.counts);
}

/// Recording never lowers a counter.
pub proof fn lemma_record_no_decrease(v: RegistryView, o: ServiceMetrics)
    requires
        view_wf(v),
    ensures
        view_wf(recorded(v, o)),
        no_decrease(v, recorded(v, o)),
{
    let w = recorded(v, o);
    let dk = duration_key(o.status_family, o.method, o.path);
    assert forall|i: int| 0 <= i < v.buckets.len() implies v.buckets[i] <= w.buckets[i] by {
        if i / (NUM_BUCKETS as int) == dk && in_bucket(o.duration_ms, i % (NUM_BUCKETS as int)) {
            assert(w.buckets[i] == sat(v.buckets[i] + 1));
        } else {
            assert(w.buckets[i] == v.buckets[i]);
        }
    }
}

/// Two reads of the registry, the second taken after more observations were
/// recorded, see no counter go down: in particular the total is
/// non-decreasing between them.
pub proof fn lemma_counters_monotone(v: RegistryView, obs: Seq<ServiceMetrics>, i: int, j: int)
    requires
        view_wf(v),
        0 <= i <= j <= obs.len(),
    ensures
        no_decrease(recorded_all(v, obs.take(i)), recorded_all(v, obs.take(j))),
    decreases j - i,
{
    if i == j {
        lemma_recorded_all_wf(v, obs.take(i));
    } else {
        lemma_counters_monotone(v, obs, i, j - 1);
        let prev = recorded_all(v, obs.take(j - 1));
        assert(obs.take(j).drop_last() =~= obs.take(j - 1));
        lemma_recorded_all_wf(v, obs.take(j - 1));
        lemma_record_no_decrease(prev, obs.take(j).last());
    }
}

/// Recording a sequence of observations gives the same state as recording
/// the same sequence with one element taken out and recorded last.
proof fn lemma_record_moved_last(v: RegistryView, s: Seq<ServiceMetrics>, i: int)
    requires
        view_wf(v),
        0 <= i < s.len(),
    ensures
        recorded_all(v, s) == recorded(recorded_all(v, s.remove(i)), s[i]),
    decreases s.len(),
{
    if i == s.len() - 1 {
        assert(s.remove(i) =~= s.drop_last());
    } else {
        let t = s.drop_last();
        let y = s.last();
        lemma_record_moved_last(v, t, i);
        let a = recorded_all(v, t.remove(i));
        lemma_recorded_all_wf(v, t.remove(i));
        lemma_record_commutes(a, s[i], y);
        assert(t.remove(i).push(y) =~= s.remove(i));
        assert(s.remove(i).drop_last() =~= t.remove(i));
    }
}

/// The state after recording a batch of observations depends only on which
/// observations were made, with their multiplicities, and not on their order:
/// every counter, bucket, sum and count comes out the same for every ordering.
pub proof fn lemma_order_independent(v: RegistryView, s1: Seq<ServiceMetrics>, s2: Seq<ServiceMetrics>)
    requires
        view_wf(v),
        s1.to_multiset() == s2.to_multiset(),
    ensures
        recorded_all(v, s1) == recorded_all(v, s2),
    decreases s1.len(),
{
    broadcast use vstd::seq_lib::group_to_multiset_ensures;
    if s1.len() == 0 {
        assert(s1.to_multiset().len() == 0);
        assert(s2.to_multiset().len() == s2.len());
        assert(s2 =~= s1);
    } else {
        let x = s1.last();
        let t1 = s1.drop_last();
        assert(s1 =~= t1.push(x));
        assert(s2.to_multiset().count(x) > 0);
        assert(s2.contains(x));
        let i = choose|i: int| 0 <= i < s2.len() && s2[i] == x;
        let t2 = s2.remove(i);
        assert(t1.to_multiset() =~= t2.to_multiset());
        lemma_order_independent(v, t1, t2);
        lemma_record_moved_last(v, s2, i);
    }
}

proof fn lemma_ints_update(s: Seq<u64>, i: int, x: u64)
    requires
        0 <= i < s.len(),
    ensures
        ints(s.update(i, x)) == ints(s).update(i, x as int),
{
    assert(ints(s.update(i, x)) =~= ints(s).update(i, x as int));
}

proof fn lemma_recorded_all_wf(v: RegistryView, obs: Seq<ServiceMetrics>)
    requires
        view_wf(v),
    ensures
        view_wf(recorded_all(v, obs)),
    decreases obs.len(),
{
    if obs.len() > 0 {
        lemma_recorded_all_wf(v, obs.drop_last());
    }
}

} // verus!
