//! Memory accounting for radar sessions and detectors.
//!
//! The radar system uses two pools of heap memory:
//!
//! - the **external heap**, which holds the large data buffers that the caller
//!   supplies (sweep data, calibration buffers), and
//! - the **RSS heap**, from which the radar system software allocates its own
//!   configuration and processing state.
//!
//! Every requirement is a closed formula over the number of points per
//! subsweep, the number of subsweeps and the number of sweeps per frame. The
//! formulas are given as `spec` functions over mathematical integers. The
//! executable functions return the formula's value, held at `usize::MAX`
//! where the value does not fit the address space of the target.

use vstd::prelude::*;
use crate::config::RadarConfig;
use crate::config::RadarConfigView;
use crate::config::SubsweepSettings;
use crate::config::MAX_NUM_SUBSWEEPS;

verus! {

/// Overhead for external heap allocations
pub const OVERHEAD: usize = 68;

/// Size of calibration buffer
pub const CALIB_BUFFER: usize = 2492;

/// Bytes per measurement point
pub const BYTES_PER_POINT: usize = 4;

/// RSS heap memory per subsweep
pub const RSS_HEAP_PER_SUBSWEEP: usize = 236;

/// RSS heap memory per sensor
pub const RSS_HEAP_PER_SENSOR: usize = 636;

/// RSS heap memory per configuration
pub const RSS_HEAP_PER_CONFIG: usize = 512;

/// Size of a single precision sample in bytes
pub const SIZE_OF_FLOAT: usize = 4;

/// Presence detector heap overhead
pub const PRESENCE_HEAP_OVERHEAD: usize = 256;

/// Distance detector heap overhead
pub const DISTANCE_HEAP_OVERHEAD: usize = 1028;

/// Distance detector heap per processor
pub const DISTANCE_HEAP_PER_PROCESSOR: usize = 224;

/// Padding length for filtfilt filtering operations (distance detector)
pub const FILTFILT_PAD_LEN: usize = 9;

/// Number of filter parameters per point for presence detection
pub const PRESENCE_FILTER_PARAMS: usize = 7;

/// Minimum static calibration buffer size for distance detection
pub const DISTANCE_MIN_STATIC_CAL_SIZE: usize = 2048;

/// The larger of two integers.
pub open spec fn larger(a: int, b: int) -> int {
    if a > b {
        a
    } else {
        b
    }
}

/// A byte count as the target can hold it: `n` itself where it fits `usize`,
/// `usize::MAX` above that.
pub open spec fn saturated(n: int) -> int {
    if n > usize::MAX {
        usize::MAX as int
    } else {
        n
    }
}

/// External heap of a session that measures `total_points` points per frame:
/// the sweep data or the calibration buffer, whichever is larger, plus the
/// allocation overhead.
pub open spec fn external_heap_for(total_points: int) -> int {
    larger(total_points * BYTES_PER_POINT as int, CALIB_BUFFER as int) + OVERHEAD as int
}

/// External heap of a session.
pub open spec fn session_external_heap(
    num_points_per_subsweep: int,
    num_subsweeps: int,
    sweeps_per_frame: int,
) -> int {
    external_heap_for(num_points_per_subsweep * num_subsweeps * sweeps_per_frame)
}

/// RSS heap of a session: what one configuration, its subsweeps and one
/// sensor take.
pub open spec fn session_rss_heap(num_subsweeps: int) -> int {
    RSS_HEAP_PER_CONFIG as int + num_subsweeps * RSS_HEAP_PER_SUBSWEEP as int
        + RSS_HEAP_PER_SENSOR as int
}

/// Both heaps of a session together.
pub open spec fn session_total(
    num_points_per_subsweep: int,
    num_subsweeps: int,
    sweeps_per_frame: int,
) -> int {
    session_external_heap(num_points_per_subsweep, num_subsweeps, sweeps_per_frame)
        + session_rss_heap(num_subsweeps)
}

/// What the presence detector adds to the external heap for `points` points.
pub open spec fn presence_external_extra(points: int) -> int {
    points * 2 * SIZE_OF_FLOAT as int
}

/// What the presence detector adds to the RSS heap for `points` points.
pub open spec fn presence_rss_extra(points: int) -> int {
    PRESENCE_HEAP_OVERHEAD as int + points * PRESENCE_FILTER_PARAMS as int * SIZE_OF_FLOAT as int
}

/// External heap of the presence detector.
pub open spec fn presence_external_heap(
    num_points: int,
    num_subsweeps: int,
    sweeps_per_frame: int,
) -> int {
    session_external_heap(num_points, num_subsweeps, sweeps_per_frame) + presence_external_extra(
        num_points,
    )
}

/// RSS heap of the presence detector.
pub open spec fn presence_rss_heap(num_points: int, num_subsweeps: int) -> int {
    presence_rss_extra(num_points) + session_rss_heap(num_subsweeps)
}

/// Both heaps of the presence detector together.
pub open spec fn presence_total(num_points: int, num_subsweeps: int, sweeps_per_frame: int) -> int {
    presence_external_heap(num_points, num_subsweeps, sweeps_per_frame) + presence_rss_heap(
        num_points,
        num_subsweeps,
    )
}

/// What the distance detector adds to the external heap for `points` points:
/// the padded work buffer of the filter, three calibration buffers and, with
/// more than one sweep per frame, the close range buffer.
pub open spec fn distance_external_extra(points: int, sweeps_per_frame: int) -> int {
    (points + 2 * FILTFILT_PAD_LEN as int) * 2 * SIZE_OF_FLOAT as int + points
        * SIZE_OF_FLOAT as int * 3 + if sweeps_per_frame > 1 {
        sweeps_per_frame * points * SIZE_OF_FLOAT as int
    } else {
        0
    }
}

/// What the distance detector adds to the RSS heap: its own overhead and two
/// processors.
pub open spec fn distance_rss_extra() -> int {
    DISTANCE_HEAP_OVERHEAD as int + DISTANCE_HEAP_PER_PROCESSOR as int * 2
}

/// External heap of the distance detector.
pub open spec fn distance_external_heap(
    num_points: int,
    num_subsweeps: int,
    sweeps_per_frame: int,
) -> int {
    session_external_heap(num_points, num_subsweeps, sweeps_per_frame) + distance_external_extra(
        num_points,
        sweeps_per_frame,
    )
}

/// RSS heap of the distance detector.
pub open spec fn distance_rss_heap(num_subsweeps: int) -> int {
    distance_rss_extra() + session_rss_heap(num_subsweeps)
}

/// Both heaps of the distance detector together.
pub open spec fn distance_total(num_points: int, num_subsweeps: int, sweeps_per_frame: int) -> int {
    distance_external_heap(num_points, num_subsweeps, sweeps_per_frame) + distance_rss_heap(
        num_subsweeps,
    )
}

/// Size of the static calibration result of the distance detector.
pub open spec fn distance_static_cal_size(num_points: int) -> int {
    larger(num_points * SIZE_OF_FLOAT as int * 2, DISTANCE_MIN_STATIC_CAL_SIZE as int)
}

/// Brings a byte count that was computed in 64 bits into `usize`.
fn to_size(n: u64) -> (r: usize)
    ensures
        r as int == saturated(n as int),
{
    if n > usize::MAX as u64 {
        usize::MAX
    } else {
        n as usize
    }
}

/// External heap, in 64 bits, for `total_points` points per frame.
fn external_heap_wide(total_points: u64) -> (r: u64)
    requires
        total_points <= 0xffff * 0xff * 0xffff,
    ensures
        r as int == external_heap_for(total_points as int),
        r <= 0xffff * 0xff * 0xffff * 4 + 68,
{
    let buffer_size: u64 = total_points * 4;
    let base: u64 = if buffer_size > 2492 {
        buffer_size
    } else {
        2492
    };
    base + 68
}

/// The product of the three session parameters, in 64 bits.
fn total_points_wide(num_points_per_subsweep: u16, num_subsweeps: u8, sweeps_per_frame: u16) -> (r:
    u64)
    ensures
        r as int == num_points_per_subsweep as int * num_subsweeps as int * sweeps_per_frame as int,
        r <= 0xffff * 0xff * 0xffff,
{
    let points: u64 = num_points_per_subsweep as u64;
    let subsweeps: u64 = num_subsweeps as u64;
    let sweeps: u64 = sweeps_per_frame as u64;
    assert(points * subsweeps <= 0xffff * 0xff) by (nonlinear_arith)
        requires
            points <= 0xffff,
            subsweeps <= 0xff,
    ;
    let per_sweep: u64 = points * subsweeps;
    assert(per_sweep * sweeps <= 0xffff * 0xff * 0xffff) by (nonlinear_arith)
        requires
            per_sweep <= 0xffff * 0xff,
            sweeps <= 0xffff,
    ;
    per_sweep * sweeps
}

/// Calculate external heap memory for a session
///
/// # Parameters
/// - `num_points_per_subsweep`: Number of points per subsweep
/// - `num_subsweeps`: Number of subsweeps
/// - `sweeps_per_frame`: Number of sweeps per frame
pub fn calc_session_external_heap(
    num_points_per_subsweep: u16,
    num_subsweeps: u8,
    sweeps_per_frame: u16,
) -> (bytes: usize)
    ensures
        bytes as int == saturated(
            session_external_heap(
                num_points_per_subsweep as int,
                num_subsweeps as int,
                sweeps_per_frame as int,
            ),
        ),
{
    let total_points = total_points_wide(num_points_per_subsweep, num_subsweeps, sweeps_per_frame);
    to_size(external_heap_wide(total_points))
}

/// RSS heap of a session, in 64 bits.
fn session_rss_wide(num_subsweeps: u64) -> (r: u64)
    requires
        num_subsweeps <= 0xff,
    ensures
        r as int == session_rss_heap(num_subsweeps as int),
        r <= 512 + 0xff * 236 + 636,
{
    512 + num_subsweeps * 236 + 636
}

/// Calculate RSS heap memory for a session
///
/// # Parameters
/// - `num_subsweeps`: Number of subsweeps
pub fn calc_session_rss_heap(num_subsweeps: u8) -> (bytes: usize)
    ensures
        bytes as int == session_rss_heap(num_subsweeps as int),
{
    RSS_HEAP_PER_CONFIG + (num_subsweeps as usize * RSS_HEAP_PER_SUBSWEEP) + RSS_HEAP_PER_SENSOR
}

/// Calculate total session memory
///
/// # Parameters
/// - `num_points_per_subsweep`: Number of points per subsweep
/// - `num_subsweeps`: Number of subsweeps
/// - `sweeps_per_frame`: Number of sweeps per frame
pub fn calc_session_total(
    num_points_per_subsweep: u16,
    num_subsweeps: u8,
    sweeps_per_frame: u16,
) -> (bytes: usize)
    ensures
        bytes as int == saturated(
            session_total(
                num_points_per_subsweep as int,
                num_subsweeps as int,
                sweeps_per_frame as int,
            ),
        ),
{
    let total_points = total_points_wide(num_points_per_subsweep, num_subsweeps, sweeps_per_frame);
    to_size(external_heap_wide(total_points) + session_rss_wide(num_subsweeps as u64))
}

/// What the presence detector adds to the external heap, in 64 bits.
fn presence_external_extra_wide(points: u64) -> (r: u64)
    requires
        points <= 0xffff * 0xff,
    ensures
        r as int == presence_external_extra(points as int),
        r <= 0xffff * 0xff * 8,
{
    points * 2 * 4
}

/// What the presence detector adds to the RSS heap, in 64 bits.
fn presence_rss_extra_wide(points: u64) -> (r: u64)
    requires
        points <= 0xffff * 0xff,
    ensures
        r as int == presence_rss_extra(points as int),
        r <= 256 + 0xffff * 0xff * 28,
{
    256 + points * 7 * 4
}

/// Calculate external heap memory for presence detection
///
/// # Parameters
/// - `num_points`: Total number of points across all subsweeps
/// - `num_subsweeps`: Number of subsweeps
/// - `sweeps_per_frame`: Number of sweeps per frame
pub fn calc_presence_external_heap(
    num_points: u16,
    num_subsweeps: u8,
    sweeps_per_frame: u16,
) -> (bytes: usize)
    ensures
        bytes as int == saturated(
            presence_external_heap(
                num_points as int,
                num_subsweeps as int,
                sweeps_per_frame as int,
            ),
        ),
{
    let total_points = total_points_wide(num_points, num_subsweeps, sweeps_per_frame);
    to_size(external_heap_wide(total_points) + presence_external_extra_wide(num_points as u64))
}

/// Calculate RSS heap memory for presence detection
///
/// # Parameters
/// - `num_points`: Total number of points across all subsweeps
/// - `num_subsweeps`: Number of subsweeps
pub fn calc_presence_rss_heap(num_points: u16, num_subsweeps: u8) -> (bytes: usize)
    ensures
        bytes as int == presence_rss_heap(num_points as int, num_subsweeps as int),
{
    let session_rss = RSS_HEAP_PER_CONFIG + (num_subsweeps as usize * RSS_HEAP_PER_SUBSWEEP);
    let presence_rss = num_points as usize * PRESENCE_FILTER_PARAMS * SIZE_OF_FLOAT;
    PRESENCE_HEAP_OVERHEAD + presence_rss + RSS_HEAP_PER_SENSOR + session_rss
}

/// Calculate total presence detection memory
///
/// # Parameters
/// - `num_points`: Total number of points across all subsweeps
/// - `num_subsweeps`: Number of subsweeps
/// - `sweeps_per_frame`: Number of sweeps per frame
pub fn calc_presence_total(num_points: u16, num_subsweeps: u8, sweeps_per_frame: u16) -> (bytes:
    usize)
    ensures
        bytes as int == saturated(
            presence_total(num_points as int, num_subsweeps as int, sweeps_per_frame as int),
        ),
{
    let total_points = total_points_wide(num_points, num_subsweeps, sweeps_per_frame);
    to_size(
        external_heap_wide(total_points) + presence_external_extra_wide(num_points as u64)
            + presence_rss_extra_wide(num_points as u64) + session_rss_wide(num_subsweeps as u64),
    )
}

/// What the distance detector adds to the external heap, in 64 bits.
fn distance_external_extra_wide(points: u64, sweeps_per_frame: u64) -> (r: u64)
    requires
        points <= 0xffff * 0xff,
        sweeps_per_frame <= 0xffff,
    ensures
        r as int == distance_external_extra(points as int, sweeps_per_frame as int),
        r <= (0xffff * 0xff + 18) * 8 + 0xffff * 0xff * 12 + 0xffff * 0xffff * 0xff * 4,
{
    let work_buffer: u64 = (points + 2 * 9) * 2 * 4;
    let calib_buffer: u64 = points * 4 * 3;
    let close_range_buffer: u64 = if sweeps_per_frame > 1 {
        assert(sweeps_per_frame * points <= 0xffff * 0xffff * 0xff) by (nonlinear_arith)
            requires
                points <= 0xffff * 0xff,
                sweeps_per_frame <= 0xffff,
        ;
        sweeps_per_frame * points * 4
    } else {
        0
    };
    work_buffer + calib_buffer + close_range_buffer
}

/// Calculate external heap memory for distance detection
///
/// This is a conservative estimate for distance detection.
///
/// # Parameters
/// - `num_points`: Total number of points across all subsweeps
/// - `num_subsweeps`: Number of subsweeps
/// - `sweeps_per_frame`: Number of sweeps per frame
pub fn calc_distance_external_heap(
    num_points: u16,
    num_subsweeps: u8,
    sweeps_per_frame: u16,
) -> (bytes: usize)
    ensures
        bytes as int == saturated(
            distance_external_heap(
                num_points as int,
                num_subsweeps as int,
                sweeps_per_frame as int,
            ),
        ),
{
    let total_points = total_points_wide(num_points, num_subsweeps, sweeps_per_frame);
    to_size(
        external_heap_wide(total_points) + distance_external_extra_wide(
            num_points as u64,
            sweeps_per_frame as u64,
        ),
    )
}

/// Calculate RSS heap memory for distance detection
///
/// # Parameters
/// - `num_subsweeps`: Number of subsweeps
pub fn calc_distance_rss_heap(num_subsweeps: u8) -> (bytes: usize)
    ensures
        bytes as int == distance_rss_heap(num_subsweeps as int),
{
    let session_rss = RSS_HEAP_PER_CONFIG + (num_subsweeps as usize * RSS_HEAP_PER_SUBSWEEP);
    // Conservative estimate: assume 2 processors
    let processor_heap = DISTANCE_HEAP_PER_PROCESSOR * 2;
    DISTANCE_HEAP_OVERHEAD + processor_heap + RSS_HEAP_PER_SENSOR + session_rss
}

/// Calculate total distance detection memory
///
/// # Parameters
/// - `num_points`: Total number of points across all subsweeps
/// - `num_subsweeps`: Number of subsweeps
/// - `sweeps_per_frame`: Number of sweeps per frame
pub fn calc_distance_total(num_points: u16, num_subsweeps: u8, sweeps_per_frame: u16) -> (bytes:
    usize)
    ensures
        bytes as int == saturated(
            distance_total(num_points as int, num_subsweeps as int, sweeps_per_frame as int),
        ),
{
    let total_points = total_points_wide(num_points, num_subsweeps, sweeps_per_frame);
    to_size(
        external_heap_wide(total_points) + distance_external_extra_wide(
            num_points as u64,
            sweeps_per_frame as u64,
        ) + 1028 + 224 * 2 + session_rss_wide(num_subsweeps as u64),
    )
}

/// Calculate static calibration buffer size for distance detection
///
/// # Parameters
/// - `num_points`: Total number of points across all subsweeps
pub fn calc_distance_static_cal_size(num_points: u16) -> (bytes: usize)
    ensures
        bytes as int == distance_static_cal_size(num_points as int),
{
    let calculated = num_points as usize * SIZE_OF_FLOAT * 2;
    if calculated > DISTANCE_MIN_STATIC_CAL_SIZE {
        calculated
    } else {
        DISTANCE_MIN_STATIC_CAL_SIZE
    }
}

/// Memory breakdown for a radar configuration
#[derive(Debug, Clone, Copy)]
pub struct MemoryRequirements {
    /// External heap memory required (bytes)
    pub external_heap: usize,
    /// RSS heap memory required (bytes)
    pub rss_heap: usize,
    /// Total memory required (bytes)
    pub total: usize,
}

impl MemoryRequirements {
    /// Creates a new MemoryRequirements instance. The total is the sum of the
    /// two heaps, held at `usize::MAX`.
    pub fn new(external_heap: usize, rss_heap: usize) -> (requirements: Self)
        ensures
            requirements.external_heap == external_heap,
            requirements.rss_heap == rss_heap,
            requirements.total as int == saturated(external_heap + rss_heap),
    {
        Self { external_heap, rss_heap, total: external_heap.saturating_add(rss_heap) }
    }
}

/// The points of the first `count` subsweeps together.
pub open spec fn points_of(subsweeps: Seq<SubsweepSettings>, count: int) -> int
    decreases count,
{
    if count <= 0 {
        0
    } else {
        points_of(subsweeps, count - 1) + subsweeps[count - 1].num_points
    }
}

/// The points of one sweep of a configuration: those of its subsweeps in
/// use together.
pub open spec fn points_in_use(config: RadarConfigView) -> int {
    points_of(config.subsweeps, config.num_subsweeps as int)
}

/// External heap of a session with a configuration.
pub open spec fn config_session_external_heap(config: RadarConfigView) -> int {
    external_heap_for(points_in_use(config) * config.sweeps_per_frame)
}

/// RSS heap of a session with a configuration.
pub open spec fn config_session_rss_heap(config: RadarConfigView) -> int {
    session_rss_heap(config.num_subsweeps as int)
}

/// External heap of the presence detector with a configuration.
pub open spec fn config_presence_external_heap(config: RadarConfigView) -> int {
    config_session_external_heap(config) + presence_external_extra(points_in_use(config))
}

/// RSS heap of the presence detector with a configuration.
pub open spec fn config_presence_rss_heap(config: RadarConfigView) -> int {
    presence_rss_extra(points_in_use(config)) + config_session_rss_heap(config)
}

/// External heap of the distance detector with a configuration.
pub open spec fn config_distance_external_heap(config: RadarConfigView) -> int {
    config_session_external_heap(config) + distance_external_extra(
        points_in_use(config),
        config.sweeps_per_frame as int,
    )
}

/// RSS heap of the distance detector with a configuration.
pub open spec fn config_distance_rss_heap(config: RadarConfigView) -> int {
    distance_rss_extra() + config_session_rss_heap(config)
}

/// The memory breakdown for an external heap and an RSS heap of the given
/// sizes, each held at `usize::MAX` and the total too.
pub open spec fn requirements_for(external_heap: int, rss_heap: int) -> MemoryRequirements {
    MemoryRequirements {
        external_heap: saturated(external_heap) as usize,
        rss_heap: saturated(rss_heap) as usize,
        total: saturated(saturated(external_heap) + saturated(rss_heap)) as usize,
    }
}

/// The memory breakdown of a session with a configuration.
pub open spec fn session_requirements(config: RadarConfigView) -> MemoryRequirements {
    requirements_for(config_session_external_heap(config), config_session_rss_heap(config))
}

/// The memory breakdown of the presence detector with a configuration.
pub open spec fn presence_requirements(config: RadarConfigView) -> MemoryRequirements {
    requirements_for(config_presence_external_heap(config), config_presence_rss_heap(config))
}

/// The memory breakdown of the distance detector with a configuration.
pub open spec fn distance_requirements(config: RadarConfigView) -> MemoryRequirements {
    requirements_for(config_distance_external_heap(config), config_distance_rss_heap(config))
}

/// The points of one sweep of a configuration, in 64 bits.
fn points_in_use_wide(config: &RadarConfig) -> (points: u64)
    ensures
        points as int == points_in_use(config@),
        points <= MAX_NUM_SUBSWEEPS * 0xffff,
        config@.well_formed(),
{
    let num_subsweeps = config.num_subsweep();
    let mut total_points: u64 = 0;
    let mut i: u8 = 0;
    while i < num_subsweeps
        invariant
            i <= num_subsweeps,
            num_subsweeps == config@.num_subsweeps,
            config@.well_formed(),
            total_points as int == points_of(config@.subsweeps, i as int),
            total_points <= i * 0xffff,
        decreases num_subsweeps - i,
    {
        let subsweep = config.get_subsweep(i).unwrap();
        total_points = total_points + subsweep.num_points(config) as u64;
        i = i + 1;
    }
    total_points
}

/// The points of one frame of a configuration, in 64 bits.
fn frame_points_wide(config: &RadarConfig) -> (points: u64)
    ensures
        points as int == points_in_use(config@) * config@.sweeps_per_frame,
        points <= 0xffff * 0xff * 0xffff,
        config@.well_formed(),
{
    let points = points_in_use_wide(config);
    let sweeps: u64 = config.sweeps_per_frame() as u64;
    assert(points * sweeps <= 4 * 0xffff * 0xffff) by (nonlinear_arith)
        requires
            points <= 4 * 0xffff,
            sweeps <= 0xffff,
    ;
    points * sweeps
}

/// Base radar session memory calculator
pub struct SessionMemoryCalculator<'a> {
    config: &'a RadarConfig,
}

impl<'a> SessionMemoryCalculator<'a> {
    /// The configuration that the calculator reads.
    pub closed spec fn config(self) -> RadarConfigView {
        self.config@
    }

    /// Creates a new session memory calculator
    pub fn new(config: &'a RadarConfig) -> (calculator: Self)
        ensures
            calculator.config() == config@,
    {
        Self { config }
    }

    /// Calculates total number of points across all subsweeps and frames
    fn total_num_points(&self) -> (points: u64)
        ensures
            points as int == points_in_use(self.config()) * self.config().sweeps_per_frame,
            points <= 0xffff * 0xff * 0xffff,
    {
        frame_points_wide(self.config)
    }

    /// Calculates external heap memory for a sweep operation
    pub fn external_heap(&self) -> (bytes: usize)
        ensures
            bytes as int == saturated(config_session_external_heap(self.config())),
    {
        to_size(external_heap_wide(self.total_num_points()))
    }

    /// Calculates RSS heap memory for a sweep operation.
    ///
    /// This includes all RSS heap components: per-config, per-subsweep, and per-sensor overhead.
    pub fn rss_heap(&self) -> (bytes: usize)
        ensures
            bytes as int == config_session_rss_heap(self.config()),
            bytes as int == saturated(config_session_rss_heap(self.config())),
    {
        let num_subsweeps = self.config.num_subsweep() as usize;
        RSS_HEAP_PER_CONFIG + num_subsweeps * RSS_HEAP_PER_SUBSWEEP + RSS_HEAP_PER_SENSOR
    }

    /// Calculates total memory requirements
    pub fn memory_requirements(&self) -> (requirements: MemoryRequirements)
        ensures
            requirements == session_requirements(self.config()),
    {
        MemoryRequirements::new(self.external_heap(), self.rss_heap())
    }
}

/// Presence detector memory calculator
pub struct PresenceMemoryCalculator<'a> {
    config: &'a RadarConfig,
}

impl<'a> PresenceMemoryCalculator<'a> {
    /// The configuration that the calculator reads.
    pub closed spec fn config(self) -> RadarConfigView {
        self.config@
    }

    /// Creates a new presence memory calculator from a radar configuration
    ///
    /// Note: This assumes the RadarConfig has been configured by the presence detector.
    /// For accurate results, use this after calling presence detector configuration methods.
    pub fn new(config: &'a RadarConfig) -> (calculator: Self)
        ensures
            calculator.config() == config@,
    {
        Self { config }
    }

    /// Calculates total number of points for presence detection
    fn total_num_points(&self) -> (points: u64)
        ensures
            points as int == points_in_use(self.config()),
            points <= MAX_NUM_SUBSWEEPS * 0xffff,
    {
        points_in_use_wide(self.config)
    }

    /// Calculates external heap memory for presence detection
    pub fn external_heap(&self) -> (bytes: usize)
        ensures
            bytes as int == saturated(config_presence_external_heap(self.config())),
    {
        let session_ext = external_heap_wide(frame_points_wide(self.config));
        let presence_ext = presence_external_extra_wide(self.total_num_points());
        to_size(session_ext + presence_ext)
    }

    /// Calculates RSS heap memory for presence detection
    pub fn rss_heap(&self) -> (bytes: usize)
        ensures
            bytes as int == saturated(config_presence_rss_heap(self.config())),
    {
        let sweep_rss = session_rss_wide(self.config.num_subsweep() as u64);
        let presence_rss = presence_rss_extra_wide(self.total_num_points());
        to_size(presence_rss + sweep_rss)
    }

    /// Calculates total memory requirements for presence detection
    pub fn memory_requirements(&self) -> (requirements: MemoryRequirements)
        ensures
            requirements == presence_requirements(self.config()),
    {
        MemoryRequirements::new(self.external_heap(), self.rss_heap())
    }

    /// Returns the buffer size needed for presence detection operations
    ///
    /// This is the size you should allocate for the buffer passed to
    /// `prepare_detector()` and `detect_presence()` methods.
    pub fn buffer_size(&self) -> (bytes: usize)
        ensures
            bytes as int == saturated(config_presence_external_heap(self.config())),
    {
        // Buffer size is primarily the external heap requirement
        // This is a conservative estimate
        self.external_heap()
    }
}

/// Distance detector memory calculator
///
/// Note: This provides conservative estimates for distance detection memory requirements.
/// The actual memory usage depends on measurement type, threshold method, and other
/// configuration parameters.
pub struct DistanceMemoryCalculator<'a> {
    config: &'a RadarConfig,
}

impl<'a> DistanceMemoryCalculator<'a> {
    /// The configuration that the calculator reads.
    pub closed spec fn config(self) -> RadarConfigView {
        self.config@
    }

    /// Creates a new distance memory calculator from a radar configuration
    ///
    /// Note: This assumes the RadarConfig has been configured by the distance detector.
    /// For accurate results, use this after calling distance detector configuration methods.
    pub fn new(config: &'a RadarConfig) -> (calculator: Self)
        ensures
            calculator.config() == config@,
    {
        Self { config }
    }

    /// Calculates total number of points for distance detection
    fn total_num_points(&self) -> (points: u64)
        ensures
            points as int == points_in_use(self.config()),
            points <= MAX_NUM_SUBSWEEPS * 0xffff,
    {
        points_in_use_wide(self.config)
    }

    /// Calculates external heap memory for distance detection
    ///
    /// This is a simplified calculation that provides a conservative estimate.
    /// The actual implementation in the SDK considers measurement types,
    /// threshold methods, and processor configurations.
    pub fn external_heap(&self) -> (bytes: usize)
        ensures
            bytes as int == saturated(config_distance_external_heap(self.config())),
    {
        let session_ext = external_heap_wide(frame_points_wide(self.config));
        let num_points = self.total_num_points();
        let sweeps_per_frame = self.config.sweeps_per_frame() as u64;
        to_size(session_ext + distance_external_extra_wide(num_points, sweeps_per_frame))
    }

    /// Calculates RSS heap memory for distance detection
    pub fn rss_heap(&self) -> (bytes: usize)
        ensures
            bytes as int == saturated(config_distance_rss_heap(self.config())),
    {
        let sweep_rss = session_rss_wide(self.config.num_subsweep() as u64);
        // Conservative estimate: assume 2 processors
        let processor_heap: u64 = 224 * 2;
        to_size(1028 + processor_heap + sweep_rss)
    }

    /// Calculates total memory requirements for distance detection
    pub fn memory_requirements(&self) -> (requirements: MemoryRequirements)
        ensures
            requirements == distance_requirements(self.config()),
    {
        MemoryRequirements::new(self.external_heap(), self.rss_heap())
    }

    /// Returns the buffer size needed for distance detection operations
    ///
    /// This is the size you should allocate for the buffer passed to
    /// `calibrate_detector()` and processing methods.
    pub fn buffer_size(&self) -> (bytes: usize)
        ensures
            bytes as int == saturated(config_distance_external_heap(self.config())),
    {
        // Conservative estimate for main processing buffer
        self.external_heap()
    }

    /// Returns the static calibration result buffer size
    ///
    /// This is the size you should allocate for the static calibration buffer.
    pub fn static_calibration_size(&self) -> (bytes: usize)
        ensures
            bytes as int == distance_static_cal_size(points_in_use(self.config())),
    {
        let num_points = self.total_num_points();
        let calculated: u64 = num_points * 4 * 2;
        if calculated > 2048 {
            calculated as usize
        } else {
            DISTANCE_MIN_STATIC_CAL_SIZE
        }
    }
}

/// The external heap of a session never falls below the calibration buffer
/// and the allocation overhead, whatever the session measures.
pub proof fn lemma_external_heap_floor(
    num_points_per_subsweep: nat,
    num_subsweeps: nat,
    sweeps_per_frame: nat,
)
    ensures
        saturated(
            session_external_heap(
                num_points_per_subsweep as int,
                num_subsweeps as int,
                sweeps_per_frame as int,
            ),
        ) >= CALIB_BUFFER + OVERHEAD,
{
}

/// The external heap of a session does not shrink when the number of points
/// per subsweep, the number of subsweeps or the number of sweeps per frame
/// grows.
pub proof fn lemma_external_heap_monotonic(
    points: nat,
    subsweeps: nat,
    sweeps: nat,
    more_points: nat,
    more_subsweeps: nat,
    more_sweeps: nat,
)
    requires
        points <= more_points,
        subsweeps <= more_subsweeps,
        sweeps <= more_sweeps,
    ensures
        saturated(session_external_heap(points as int, subsweeps as int, sweeps as int))
            <= saturated(
            session_external_heap(more_points as int, more_subsweeps as int, more_sweeps as int),
        ),
{
    assert(points * subsweeps <= more_points * more_subsweeps) by (nonlinear_arith)
        requires
            points <= more_points,
            subsweeps <= more_subsweeps,
    ;
    assert(points * subsweeps * sweeps <= more_points * more_subsweeps * more_sweeps)
        by (nonlinear_arith)
        requires
            0 <= points * subsweeps <= more_points * more_subsweeps,
            sweeps <= more_sweeps,
    ;
}

/// Subsweeps of equal size add up to their product: where each of the first
/// `count` subsweeps has `points` points, together they have `count` times
/// `points`.
pub proof fn lemma_points_of_equal_subsweeps(
    subsweeps: Seq<SubsweepSettings>,
    count: int,
    points: int,
)
    requires
        0 <= count <= subsweeps.len(),
        forall|i: int| 0 <= i < count ==> (#[trigger] subsweeps[i]).num_points == points,
    ensures
        points_of(subsweeps, count) == points * count,
    decreases count,
{
    if count > 0 {
        lemma_points_of_equal_subsweeps(subsweeps, count - 1, points);
        assert(subsweeps[count - 1].num_points == points);
        assert(points * (count - 1) + points == points * count) by (nonlinear_arith);
    } else {
        assert(points * 0 == 0);
    }
}

/// What is calculated from a configuration is what the closed formulas give
/// for its numbers: for a session, where every subsweep in use has the same
/// number of points; for the detectors, whose formulas take the points of
/// the whole sweep, where one subsweep is in use.
pub proof fn lemma_calculators_match_formulas(config: RadarConfigView, points: int)
    requires
        config.well_formed(),
        forall|i: int|
            0 <= i < config.num_subsweeps ==> (#[trigger] config.subsweeps[i]).num_points
                == points,
    ensures
        config_session_external_heap(config) == session_external_heap(
            points,
            config.num_subsweeps as int,
            config.sweeps_per_frame as int,
        ),
        config_session_rss_heap(config) == session_rss_heap(config.num_subsweeps as int),
        config.num_subsweeps == 1 ==> config_presence_external_heap(config)
            == presence_external_heap(points, 1, config.sweeps_per_frame as int),
        config.num_subsweeps == 1 ==> config_presence_rss_heap(config) == presence_rss_heap(
            points,
            1,
        ),
        config.num_subsweeps == 1 ==> config_distance_external_heap(config)
            == distance_external_heap(points, 1, config.sweeps_per_frame as int),
        config_distance_rss_heap(config) == distance_rss_heap(config.num_subsweeps as int),
{
    lemma_points_of_equal_subsweeps(config.subsweeps, config.num_subsweeps as int, points);
    if config.num_subsweeps == 1 {
        assert(points * 1 == points);
        assert(points * 1 * config.sweeps_per_frame == points * config.sweeps_per_frame);
    }
}

} // verus!
