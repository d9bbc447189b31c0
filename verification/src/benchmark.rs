//! The schedules of the encoding benchmarks: which picture is encoded with
//! which quality, speed and number of threads, in the order of the runs.

use vstd::prelude::*;

verus! {

/// One timed AVIF encoding of a benchmark picture.
#[derive(Clone, Copy, Debug, PartialEq, Eq, Structural)]
pub struct EncodeTrial {
    /// Which of the decoded benchmark pictures is encoded.
    pub frame: usize,
    pub quality: u8,
    pub speed: u8,
}

/// One setting of the encoding speed test.
#[derive(Clone, Copy, Debug, PartialEq, Eq, Structural)]
pub struct SpeedTestPoint {
    pub speed: u8,
    pub threads: usize,
    pub quality: u8,
}


/// The speeds that the report tries for each picture.
pub open spec fn report_speeds() -> Seq<u8> {
    seq![2u8, 3u8, 5u8]
}

/// The report's blocks: the smartphone screenshot (picture 1) and the
/// desktop screenshot (picture 0) at low qualities, then the photograph
/// (picture 2) at high qualities.
pub open spec fn report_block(b: int) -> (usize, Seq<u8>) {
    if b == 0 {
        (1usize, seq![5u8, 15u8, 35u8])
    } else if b == 1 {
        (0usize, seq![5u8, 15u8, 35u8])
    } else {
        (2usize, seq![85u8, 90u8, 95u8])
    }
}

/// The `i`-th single-picture trial of the speed report: blocks in order,
/// within a block the speeds, within a speed the qualities.
pub open spec fn report_trial(i: int) -> EncodeTrial {
    let (frame, qualities) = report_block(i / 9);
    EncodeTrial { frame, quality: qualities[i % 3], speed: report_speeds()[(i % 9) / 3] }
}

/// The single-picture encodings of the speed report, in the order that they
/// run.
pub fn speed_report_trials() -> (trials: Vec<EncodeTrial>)
    ensures
        trials.len() == 27,
        forall|i: int| 0 <= i < 27 ==> #[trigger] trials[i] == report_trial(i),
{
    let speeds: Vec<u8> = vec![2u8, 3u8, 5u8];
    let low: Vec<u8> = vec![5u8, 15u8, 35u8];
    let high: Vec<u8> = vec![85u8, 90u8, 95u8];
    let mut trials: Vec<EncodeTrial> = Vec::new();
    let mut i: usize = 0;
    while i < 27
        invariant
            i <= 27,
            speeds@ == report_speeds(),
            low@ == report_block(0).1,
            low@ == report_block(1).1,
            high@ == report_block(2).1,
            trials.len() == i,
            forall|j: int| 0 <= j < i ==> #[trigger] trials[j] == report_trial(j),
        decreases 27 - i,
    {
        let b: usize = i / 9;
        let frame: usize = if b == 0 { 1 } else if b == 1 { 0 } else { 2 };
        let quality: u8 = if b < 2 { low[i % 3] } else { high[i % 3] };
        trials.push(EncodeTrial { frame, quality, speed: speeds[(i % 9) / 3] });
        i = i + 1;
    }
    trials
}

/// The speeds, thread counts and qualities of the speed test.
pub open spec fn test_speeds() -> Seq<u8> {
    seq![2u8, 3u8, 5u8]
}

pub open spec fn test_threads() -> Seq<usize> {
    seq![1usize, 2usize, 4usize, 8usize, 16usize]
}

pub open spec fn test_qualities() -> Seq<u8> {
    seq![5u8, 35u8, 55u8, 85u8, 95u8]
}

/// The `i`-th setting of the speed test: speeds outermost, then thread
/// counts, then qualities.
pub open spec fn test_point(i: int) -> SpeedTestPoint {
    SpeedTestPoint {
        speed: test_speeds()[i / 25],
        threads: test_threads()[(i % 25) / 5],
        quality: test_qualities()[i % 5],
    }
}

/// The settings of the speed test, in the order that they run.
pub fn speed_test_points() -> (points: Vec<SpeedTestPoint>)
    ensures
        points.len() == 75,
        forall|i: int| 0 <= i < 75 ==> #[trigger] points[i] == test_point(i),
{
    let speeds: Vec<u8> = vec![2u8, 3u8, 5u8];
    let threads: Vec<usize> = vec![1usize, 2usize, 4usize, 8usize, 16usize];
    let qualities: Vec<u8> = vec![5u8, 35u8, 55u8, 85u8, 95u8];
    let mut points: Vec<SpeedTestPoint> = Vec::new();
    let mut i: usize = 0;
    while i < 75
        invariant
            i <= 75,
            speeds@ == test_speeds(),
            threads@ == test_threads(),
            qualities@ == test_qualities(),
            points.len() == i,
            forall|j: int| 0 <= j < i ==> #[trigger] points[j] == test_point(j),
        decreases 75 - i,
    {
        points.push(SpeedTestPoint {
            speed: speeds[i / 25],
            threads: threads[(i % 25) / 5],
            quality: qualities[i % 5],
        });
        i = i + 1;
    }
    points
}

/// The `i`-th encoding of the screenshot comparison: qualities 5 and 10,
/// each with the speeds 1 to 9.
pub open spec fn screenshot_trial(i: int) -> (u8, u8) {
    (((i / 9 + 1) * 5) as u8, ((i % 9) + 1) as u8)
}

/// The `(quality, speed)` pairs with which the screenshot comparison encodes
/// its picture, in the order that they run.
pub fn screenshot_trials() -> (trials: Vec<(u8, u8)>)
    ensures
        trials.len() == 18,
        forall|i: int| 0 <= i < 18 ==> #[trigger] trials[i] == screenshot_trial(i),
{
    let mut trials: Vec<(u8, u8)> = Vec::new();
    let mut q: u8 = 1;
    while q <= 2
        invariant
            1 <= q <= 3,
            trials.len() == 9 * (q - 1),
            forall|i: int| 0 <= i < trials.len() ==> #[trigger] trials[i] == screenshot_trial(i),
        decreases 3 - q,
    {
        let mut s: u8 = 1;
        while s <= 9
            invariant
                1 <= q <= 2,
                1 <= s <= 10,
                trials.len() == 9 * (q - 1) + (s - 1),
                forall|i: int| 0 <= i < trials.len() ==> #[trigger] trials[i] == screenshot_trial(i),
            decreases 10 - s,
        {
            trials.push((q * 5, s));
            s = s + 1;
        }
        q = q + 1;
    }
    trials
}

/// How the speed report names each of its pictures: picture 0 is the
/// desktop screenshot, picture 1 the smartphone screenshot, and the others
/// the photograph.
pub fn picture_label(frame: usize) -> (label: &'static str)
    ensures
        frame == 0 ==> label@ == "<4k+ desktop screenshot>"@,
        frame == 1 ==> label@ == "<2k+ smartphone screenshot>"@,
        frame >= 2 ==> label@ == "<photography>"@,
{
    if frame == 0 {
        "<4k+ desktop screenshot>"
    } else if frame == 1 {
        "<2k+ smartphone screenshot>"
    } else {
        "<photography>"
    }
}

/// The speed report encodes the smartphone screenshot (picture 1) and then
/// the desktop screenshot (picture 0) at qualities 5, 15 and 35, then the
/// photograph (picture 2) at qualities 85, 90 and 95, each at speeds 2, 3
/// and 5, in this order.
pub proof fn law_speed_report_schedule(trials: Seq<EncodeTrial>)
    requires
        trials.len() == 27,
        forall|i: int| 0 <= i < 27 ==> #[trigger] trials[i] == report_trial(i),
    ensures
        trials == seq![
            EncodeTrial { frame: 1, quality: 5, speed: 2 }, EncodeTrial { frame: 1, quality: 15, speed: 2 }, EncodeTrial { frame: 1, quality: 35, speed: 2 },
            EncodeTrial { frame: 1, quality: 5, speed: 3 }, EncodeTrial { frame: 1, quality: 15, speed: 3 }, EncodeTrial { frame: 1, quality: 35, speed: 3 },
            EncodeTrial { frame: 1, quality: 5, speed: 5 }, EncodeTrial { frame: 1, quality: 15, speed: 5 }, EncodeTrial { frame: 1, quality: 35, speed: 5 },
            EncodeTrial { frame: 0, quality: 5, speed: 2 }, EncodeTrial { frame: 0, quality: 15, speed: 2 }, EncodeTrial { frame: 0, quality: 35, speed: 2 },
            EncodeTrial { frame: 0, quality: 5, speed: 3 }, EncodeTrial { frame: 0, quality: 15, speed: 3 }, EncodeTrial { frame: 0, quality: 35, speed: 3 },
            EncodeTrial { frame: 0, quality: 5, speed: 5 }, EncodeTrial { frame: 0, quality: 15, speed: 5 }, EncodeTrial { frame: 0, quality: 35, speed: 5 },
            EncodeTrial { frame: 2, quality: 85, speed: 2 }, EncodeTrial { frame: 2, quality: 90, speed: 2 }, EncodeTrial { frame: 2, quality: 95, speed: 2 },
            EncodeTrial { frame: 2, quality: 85, speed: 3 }, EncodeTrial { frame: 2, quality: 90, speed: 3 }, EncodeTrial { frame: 2, quality: 95, speed: 3 },
            EncodeTrial { frame: 2, quality: 85, speed: 5 }, EncodeTrial { frame: 2, quality: 90, speed: 5 }, EncodeTrial { frame: 2, quality: 95, speed: 5 },
        ],
{
    assert(trials =~= seq![
            EncodeTrial { frame: 1, quality: 5, speed: 2 }, EncodeTrial { frame: 1, quality: 15, speed: 2 }, EncodeTrial { frame: 1, quality: 35, speed: 2 },
            EncodeTrial { frame: 1, quality: 5, speed: 3 }, EncodeTrial { frame: 1, quality: 15, speed: 3 }, EncodeTrial { frame: 1, quality: 35, speed: 3 },
            EncodeTrial { frame: 1, quality: 5, speed: 5 }, EncodeTrial { frame: 1, quality: 15, speed: 5 }, EncodeTrial { frame: 1, quality: 35, speed: 5 },
            EncodeTrial { frame: 0, quality: 5, speed: 2 }, EncodeTrial { frame: 0, quality: 15, speed: 2 }, EncodeTrial { frame: 0, quality: 35, speed: 2 },
            EncodeTrial { frame: 0, quality: 5, speed: 3 }, EncodeTrial { frame: 0, quality: 15, speed: 3 }, EncodeTrial { frame: 0, quality: 35, speed: 3 },
            EncodeTrial { frame: 0, quality: 5, speed: 5 }, EncodeTrial { frame: 0, quality: 15, speed: 5 }, EncodeTrial { frame: 0, quality: 35, speed: 5 },
            EncodeTrial { frame: 2, quality: 85, speed: 2 }, EncodeTrial { frame: 2, quality: 90, speed: 2 }, EncodeTrial { frame: 2, quality: 95, speed: 2 },
            EncodeTrial { frame: 2, quality: 85, speed: 3 }, EncodeTrial { frame: 2, quality: 90, speed: 3 }, EncodeTrial { frame: 2, quality: 95, speed: 3 },
            EncodeTrial { frame: 2, quality: 85, speed: 5 }, EncodeTrial { frame: 2, quality: 90, speed: 5 }, EncodeTrial { frame: 2, quality: 95, speed: 5 },
        ]);
}

/// The speed test runs speeds 2, 3 and 5, each with 1, 2, 4, 8 and 16
/// threads, each at qualities 5, 35, 55, 85 and 95, in this order.
pub proof fn law_speed_test_schedule(points: Seq<SpeedTestPoint>)
    requires
        points.len() == 75,
        forall|i: int| 0 <= i < 75 ==> #[trigger] points[i] == test_point(i),
    ensures
        points == seq![
            SpeedTestPoint { speed: 2, threads: 1, quality: 5 }, SpeedTestPoint { speed: 2, threads: 1, quality: 35 }, SpeedTestPoint { speed: 2, threads: 1, quality: 55 },
            SpeedTestPoint { speed: 2, threads: 1, quality: 85 }, SpeedTestPoint { speed: 2, threads: 1, quality: 95 }, SpeedTestPoint { speed: 2, threads: 2, quality: 5 },
            SpeedTestPoint { speed: 2, threads: 2, quality: 35 }, SpeedTestPoint { speed: 2, threads: 2, quality: 55 }, SpeedTestPoint { speed: 2, threads: 2, quality: 85 },
            SpeedTestPoint { speed: 2, threads: 2, quality: 95 }, SpeedTestPoint { speed: 2, threads: 4, quality: 5 }, SpeedTestPoint { speed: 2, threads: 4, quality: 35 },
            SpeedTestPoint { speed: 2, threads: 4, quality: 55 }, SpeedTestPoint { speed: 2, threads: 4, quality: 85 }, SpeedTestPoint { speed: 2, threads: 4, quality: 95 },
            SpeedTestPoint { speed: 2, threads: 8, quality: 5 }, SpeedTestPoint { speed: 2, threads: 8, quality: 35 }, SpeedTestPoint { speed: 2, threads: 8, quality: 55 },
            SpeedTestPoint { speed: 2, threads: 8, quality: 85 }, SpeedTestPoint { speed: 2, threads: 8, quality: 95 }, SpeedTestPoint { speed: 2, threads: 16, quality: 5 },
            SpeedTestPoint { speed: 2, threads: 16, quality: 35 }, SpeedTestPoint { speed: 2, threads: 16, quality: 55 }, SpeedTestPoint { speed: 2, threads: 16, quality: 85 },
            SpeedTestPoint { speed: 2, threads: 16, quality: 95 }, SpeedTestPoint { speed: 3, threads: 1, quality: 5 }, SpeedTestPoint { speed: 3, threads: 1, quality: 35 },
            SpeedTestPoint { speed: 3, threads: 1, quality: 55 }, SpeedTestPoint { speed: 3, threads: 1, quality: 85 }, SpeedTestPoint { speed: 3, threads: 1, quality: 95 },
            SpeedTestPoint { speed: 3, threads: 2, quality: 5 }, SpeedTestPoint { speed: 3, threads: 2, quality: 35 }, SpeedTestPoint { speed: 3, threads: 2, quality: 55 },
            SpeedTestPoint { speed: 3, threads: 2, quality: 85 }, SpeedTestPoint { speed: 3, threads: 2, quality: 95 }, SpeedTestPoint { speed: 3, threads: 4, quality: 5 },
            SpeedTestPoint { speed: 3, threads: 4, quality: 35 }, SpeedTestPoint { speed: 3, threads: 4, quality: 55 }, SpeedTestPoint { speed: 3, threads: 4, quality: 85 },
            SpeedTestPoint { speed: 3, threads: 4, quality: 95 }, SpeedTestPoint { speed: 3, threads: 8, quality: 5 }, SpeedTestPoint { speed: 3, threads: 8, quality: 35 },
            SpeedTestPoint { speed: 3, threads: 8, quality: 55 }, SpeedTestPoint { speed: 3, threads: 8, quality: 85 }, SpeedTestPoint { speed: 3, threads: 8, quality: 95 },
            SpeedTestPoint { speed: 3, threads: 16, quality: 5 }, SpeedTestPoint { speed: 3, threads: 16, quality: 35 }, SpeedTestPoint { speed: 3, threads: 16, quality: 55 },
            SpeedTestPoint { speed: 3, threads: 16, quality: 85 }, SpeedTestPoint { speed: 3, threads: 16, quality: 95 }, SpeedTestPoint { speed: 5, threads: 1, quality: 5 },
            SpeedTestPoint { speed: 5, threads: 1, quality: 35 }, SpeedTestPoint { speed: 5, threads: 1, quality: 55 }, SpeedTestPoint { speed: 5, threads: 1, quality: 85 },
            SpeedTestPoint { speed: 5, threads: 1, quality: 95 }, SpeedTestPoint { speed: 5, threads: 2, quality: 5 }, SpeedTestPoint { speed: 5, threads: 2, quality: 35 },
            SpeedTestPoint { speed: 5, threads: 2, quality: 55 }, SpeedTestPoint { speed: 5, threads: 2, quality: 85 }, SpeedTestPoint { speed: 5, threads: 2, quality: 95 },
            SpeedTestPoint { speed: 5, threads: 4, quality: 5 }, SpeedTestPoint { speed: 5, threads: 4, quality: 35 }, SpeedTestPoint { speed: 5, threads: 4, quality: 55 },
            SpeedTestPoint { speed: 5, threads: 4, quality: 85 }, SpeedTestPoint { speed: 5, threads: 4, quality: 95 }, SpeedTestPoint { speed: 5, threads: 8, quality: 5 },
            SpeedTestPoint { speed: 5, threads: 8, quality: 35 }, SpeedTestPoint { speed: 5, threads: 8, quality: 55 }, SpeedTestPoint { speed: 5, threads: 8, quality: 85 },
            SpeedTestPoint { speed: 5, threads: 8, quality: 95 }, SpeedTestPoint { speed: 5, threads: 16, quality: 5 }, SpeedTestPoint { speed: 5, threads: 16, quality: 35 },
            SpeedTestPoint { speed: 5, threads: 16, quality: 55 }, SpeedTestPoint { speed: 5, threads: 16, quality: 85 }, SpeedTestPoint { speed: 5, threads: 16, quality: 95 },
        ],
{
    assert(points =~= seq![
            SpeedTestPoint { speed: 2, threads: 1, quality: 5 }, SpeedTestPoint { speed: 2, threads: 1, quality: 35 }, SpeedTestPoint { speed: 2, threads: 1, quality: 55 },
            SpeedTestPoint { speed: 2, threads: 1, quality: 85 }, SpeedTestPoint { speed: 2, threads: 1, quality: 95 }, SpeedTestPoint { speed: 2, threads: 2, quality: 5 },
            SpeedTestPoint { speed: 2, threads: 2, quality: 35 }, SpeedTestPoint { speed: 2, threads: 2, quality: 55 }, SpeedTestPoint { speed: 2, threads: 2, quality: 85 },
            SpeedTestPoint { speed: 2, threads: 2, quality: 95 }, SpeedTestPoint { speed: 2, threads: 4, quality: 5 }, SpeedTestPoint { speed: 2, threads: 4, quality: 35 },
            SpeedTestPoint { speed: 2, threads: 4, quality: 55 }, SpeedTestPoint { speed: 2, threads: 4, quality: 85 }, SpeedTestPoint { speed: 2, threads: 4, quality: 95 },
            SpeedTestPoint { speed: 2, threads: 8, quality: 5 }, SpeedTestPoint { speed: 2, threads: 8, quality: 35 }, SpeedTestPoint { speed: 2, threads: 8, quality: 55 },
            SpeedTestPoint { speed: 2, threads: 8, quality: 85 }, SpeedTestPoint { speed: 2, threads: 8, quality: 95 }, SpeedTestPoint { speed: 2, threads: 16, quality: 5 },
            SpeedTestPoint { speed: 2, threads: 16, quality: 35 }, SpeedTestPoint { speed: 2, threads: 16, quality: 55 }, SpeedTestPoint { speed: 2, threads: 16, quality: 85 },
            SpeedTestPoint { speed: 2, threads: 16, quality: 95 }, SpeedTestPoint { speed: 3, threads: 1, quality: 5 }, SpeedTestPoint { speed: 3, threads: 1, quality: 35 },
            SpeedTestPoint { speed: 3, threads: 1, quality: 55 }, SpeedTestPoint { speed: 3, threads: 1, quality: 85 }, SpeedTestPoint { speed: 3, threads: 1, quality: 95 },
            SpeedTestPoint { speed: 3, threads: 2, quality: 5 }, SpeedTestPoint { speed: 3, threads: 2, quality: 35 }, SpeedTestPoint { speed: 3, threads: 2, quality: 55 },
            SpeedTestPoint { speed: 3, threads: 2, quality: 85 }, SpeedTestPoint { speed: 3, threads: 2, quality: 95 }, SpeedTestPoint { speed: 3, threads: 4, quality: 5 },
            SpeedTestPoint { speed: 3, threads: 4, quality: 35 }, SpeedTestPoint { speed: 3, threads: 4, quality: 55 }, SpeedTestPoint { speed: 3, threads: 4, quality: 85 },
            SpeedTestPoint { speed: 3, threads: 4, quality: 95 }, SpeedTestPoint { speed: 3, threads: 8, quality: 5 }, SpeedTestPoint { speed: 3, threads: 8, quality: 35 },
            SpeedTestPoint { speed: 3, threads: 8, quality: 55 }, SpeedTestPoint { speed: 3, threads: 8, quality: 85 }, SpeedTestPoint { speed: 3, threads: 8, quality: 95 },
            SpeedTestPoint { speed: 3, threads: 16, quality: 5 }, SpeedTestPoint { speed: 3, threads: 16, quality: 35 }, SpeedTestPoint { speed: 3, threads: 16, quality: 55 },
            SpeedTestPoint { speed: 3, threads: 16, quality: 85 }, SpeedTestPoint { speed: 3, threads: 16, quality: 95 }, SpeedTestPoint { speed: 5, threads: 1, quality: 5 },
            SpeedTestPoint { speed: 5, threads: 1, quality: 35 }, SpeedTestPoint { speed: 5, threads: 1, quality: 55 }, SpeedTestPoint { speed: 5, threads: 1, quality: 85 },
            SpeedTestPoint { speed: 5, threads: 1, quality: 95 }, SpeedTestPoint { speed: 5, threads: 2, quality: 5 }, SpeedTestPoint { speed: 5, threads: 2, quality: 35 },
            SpeedTestPoint { speed: 5, threads: 2, quality: 55 }, SpeedTestPoint { speed: 5, threads: 2, quality: 85 }, SpeedTestPoint { speed: 5, threads: 2, quality: 95 },
            SpeedTestPoint { speed: 5, threads: 4, quality: 5 }, SpeedTestPoint { speed: 5, threads: 4, quality: 35 }, SpeedTestPoint { speed: 5, threads: 4, quality: 55 },
            SpeedTestPoint { speed: 5, threads: 4, quality: 85 }, SpeedTestPoint { speed: 5, threads: 4, quality: 95 }, SpeedTestPoint { speed: 5, threads: 8, quality: 5 },
            SpeedTestPoint { speed: 5, threads: 8, quality: 35 }, SpeedTestPoint { speed: 5, threads: 8, quality: 55 }, SpeedTestPoint { speed: 5, threads: 8, quality: 85 },
            SpeedTestPoint { speed: 5, threads: 8, quality: 95 }, SpeedTestPoint { speed: 5, threads: 16, quality: 5 }, SpeedTestPoint { speed: 5, threads: 16, quality: 35 },
            SpeedTestPoint { speed: 5, threads: 16, quality: 55 }, SpeedTestPoint { speed: 5, threads: 16, quality: 85 }, SpeedTestPoint { speed: 5, threads: 16, quality: 95 },
        ]);
}

/// The screenshot comparison encodes at quality 5 with speeds 1 to 9, then
/// at quality 10 with speeds 1 to 9.
pub proof fn law_screenshot_schedule(trials: Seq<(u8, u8)>)
    requires
        trials.len() == 18,
        forall|i: int| 0 <= i < 18 ==> #[trigger] trials[i] == screenshot_trial(i),
    ensures
        trials == seq![
            (5u8, 1u8), (5u8, 2u8), (5u8, 3u8), (5u8, 4u8), (5u8, 5u8), (5u8, 6u8), (5u8, 7u8), (5u8, 8u8), (5u8, 9u8),
            (10u8, 1u8), (10u8, 2u8), (10u8, 3u8), (10u8, 4u8), (10u8, 5u8), (10u8, 6u8), (10u8, 7u8), (10u8, 8u8), (10u8, 9u8),
        ],
{
    assert(trials =~= seq![
            (5u8, 1u8), (5u8, 2u8), (5u8, 3u8), (5u8, 4u8), (5u8, 5u8), (5u8, 6u8), (5u8, 7u8), (5u8, 8u8), (5u8, 9u8),
            (10u8, 1u8), (10u8, 2u8), (10u8, 3u8), (10u8, 4u8), (10u8, 5u8), (10u8, 6u8), (10u8, 7u8), (10u8, 8u8), (10u8, 9u8),
        ]);
}

} // verus!
