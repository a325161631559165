//! Properties of whole packet streams fed to the cube reassembler.
use vstd::prelude::*;
use crate::bytes::{be2, be4};
use crate::cube::volume;
use crate::eth::{
    counter_gap, cube_dims, cube_payload, min, debug_payload, footer_error, message_counter_size, next_counter, ok_bytes,
    read_spec, spec_cube_header, spec_debug_header, spec_port_header, start_error, transport_valid,
    RadarCube, RadarCubeReader, SMSError, END_OF_DATA, FRAME_DATA, FRAME_FOOTER, START_OF_FRAME,
};

verus! {

/// The debug header bytes of the datagram `b`.
pub open spec fn debug_of(b: Seq<u8>) -> Seq<u8> {
    ok_bytes(spec_debug_header(b))
}

/// The message counter of the datagram `b`.
pub open spec fn counter_of(b: Seq<u8>) -> u16 {
    be2(b, 10) as u16
}

/// The frame counter of the datagram `b`.
pub open spec fn frame_of(b: Seq<u8>) -> u32 {
    be4(debug_of(b), 0) as u32
}

/// The cube shape that the start-of-frame datagram `b` announces.
pub open spec fn shape_of(b: Seq<u8>) -> Seq<usize> {
    cube_dims(ok_bytes(spec_cube_header(ok_bytes(spec_port_header(b)))))
}

/// Whether `b` is a start-of-frame datagram that opens a cube.
pub open spec fn opens_cube(b: Seq<u8>) -> bool {
    &&& transport_valid(b)
    &&& spec_debug_header(b) is Ok
    &&& debug_of(b)[4] == START_OF_FRAME
    &&& start_error(b) is None
}

/// Whether `b` is a data datagram of frame `fc` with a message counter.
pub open spec fn is_data_of(b: Seq<u8>, fc: u32) -> bool {
    &&& transport_valid(b)
    &&& spec_debug_header(b) is Ok
    &&& (debug_of(b)[4] == FRAME_DATA || debug_of(b)[4] == END_OF_DATA)
    &&& message_counter_size(b) > 0
    &&& frame_of(b) == fc
}

/// Whether `b` is a footer datagram of frame `fc` that carries bin
/// properties.
pub open spec fn is_footer_of(b: Seq<u8>, fc: u32) -> bool {
    &&& transport_valid(b)
    &&& spec_debug_header(b) is Ok
    &&& debug_of(b)[4] == FRAME_FOOTER
    &&& frame_of(b) == fc
    &&& footer_error(b) is None
}

/// Whether feeding `packets` to the reader `states[0]` one by one passes
/// through `states` and returns `results`.
pub open spec fn fed(
    states: Seq<RadarCubeReader>,
    results: Seq<Result<Option<RadarCube>, SMSError>>,
    packets: Seq<Seq<u8>>,
) -> bool {
    &&& states.len() == packets.len() + 1
    &&& results.len() == packets.len()
    &&& forall|i: int| 0 <= i < packets.len() ==> #[trigger] fed_step(states, results, packets, i)
}

/// Whether step `i` of `fed` holds.
pub open spec fn fed_step(
    states: Seq<RadarCubeReader>,
    results: Seq<Result<Option<RadarCube>, SMSError>>,
    packets: Seq<Seq<u8>>,
    i: int,
) -> bool {
    read_spec(states[i], states[i + 1], results[i], packets[i]) && states[i + 1].wf()
}

/// A reader in the middle of frame `fc` of shape `dims`, last message `m`,
/// with `hole` samples skipped and `skipped` messages counted as lost.
pub open spec fn filling(r: RadarCubeReader, dims: Seq<usize>, fc: u32, m: u16, hole: int, skipped: u16) -> bool {
    &&& r.wf()
    &&& r.cube_shape matches Some(sh) && sh@ == dims
    &&& r.frame_counter == fc
    &&& r.message_counter == m
    &&& r.error.is_none()
    &&& r.cube_index - r.cube_captured == hole
    &&& r.packets_skipped == skipped
}

/// Samples carried by the first `k` datagrams of a frame: those after the
/// cube header of the start of frame, then those of each data datagram.
pub open spec fn samples_until(packets: Seq<Seq<u8>>, k: int) -> int
    decreases k,
{
    if k <= 1 {
        cube_payload(ok_bytes(spec_cube_header(ok_bytes(spec_port_header(packets[0]))))).len() as int
            / 4
    } else {
        samples_until(packets, k - 1) + payload_len(packets[k - 1]) / 4
    }
}

proof fn lemma_start_step(old: RadarCubeReader, new: RadarCubeReader, r: Result<Option<RadarCube>, SMSError>, b: Seq<u8>)
    requires
        read_spec(old, new, r, b),
        new.wf(),
        opens_cube(b),
    ensures
        filling(new, shape_of(b), frame_of(b), counter_of(b), 0, 0),
        new.cube_index == min(
            cube_payload(ok_bytes(spec_cube_header(ok_bytes(spec_port_header(b))))).len() as int / 4,
            new.cube@.len() as int,
        ),
{
}

proof fn lemma_data_step(
    old: RadarCubeReader,
    new: RadarCubeReader,
    r: Result<Option<RadarCube>, SMSError>,
    b: Seq<u8>,
    dims: Seq<usize>,
    hole: int,
    skipped: u16,
)
    requires
        read_spec(old, new, r, b),
        new.wf(),
        filling(old, dims, old.frame_counter, old.message_counter, hole, skipped),
        is_data_of(b, old.frame_counter),
        counter_of(b) == next_counter(old.message_counter),
    ensures
        filling(new, dims, old.frame_counter, counter_of(b), hole, skipped),
        r == Ok::<Option<RadarCube>, SMSError>(None),
        forall|t: int|
            t >= 0 && old.cube_index == min(t, old.cube@.len() as int) ==> new.cube_index == min(
                t + payload_len(b) / 4,
                new.cube@.len() as int,
            ),
{
}

proof fn lemma_gap_step(
    old: RadarCubeReader,
    new: RadarCubeReader,
    r: Result<Option<RadarCube>, SMSError>,
    b: Seq<u8>,
    dims: Seq<usize>,
)
    requires
        read_spec(old, new, r, b),
        new.wf(),
        filling(old, dims, old.frame_counter, old.message_counter, 0, 0),
        is_data_of(b, old.frame_counter),
        counter_of(b) == next_counter(next_counter(old.message_counter) as u16),
        old.cube_index + debug_payload(debug_of(b)).len() / 4 < old.cube@.len(),
    ensures
        filling(new, dims, old.frame_counter, counter_of(b), debug_payload(debug_of(b)).len() as int / 4, 1),
        r == Ok::<Option<RadarCube>, SMSError>(None),
        new.cube_index == min(old.cube_index + 2 * (payload_len(b) / 4), new.cube@.len() as int),
{
    let e = next_counter(old.message_counter);
    assert(counter_gap(counter_of(b), e) == 1);
}

proof fn lemma_footer_step(
    old: RadarCubeReader,
    new: RadarCubeReader,
    r: Result<Option<RadarCube>, SMSError>,
    b: Seq<u8>,
    dims: Seq<usize>,
    hole: int,
    skipped: u16,
)
    requires
        read_spec(old, new, r, b),
        filling(old, dims, old.frame_counter, old.message_counter, hole, skipped),
        is_footer_of(b, old.frame_counter),
    ensures
        match r {
            Err(SMSError::MissingCubeData(_, _)) => true,
            Ok(Some(c)) => c.missing_data == hole && c.packets_skipped == skipped && c.shape@ == dims
                && c.frame_counter == old.frame_counter,
            _ => false,
        },
{
}

/// Whether `packets` is one frame without loss: a start-of-frame, data
/// datagrams of the same frame with consecutive message counters, and a
/// footer of the same frame.
pub open spec fn gapless_frame(packets: Seq<Seq<u8>>) -> bool {
    let n = packets.len();
    &&& n >= 2
    &&& opens_cube(packets[0])
    &&& gapless_until(packets, n - 1)
    &&& is_footer_of(packets[n - 1], frame_of(packets[0]))
}

/// Whether `packets` starts with a start-of-frame followed, below index `k`,
/// by data datagrams of the same frame with consecutive message counters.
pub open spec fn gapless_until(packets: Seq<Seq<u8>>, k: int) -> bool {
    &&& opens_cube(packets[0])
    &&& forall|i: int| 0 < i < k ==> #[trigger] is_data_of(packets[i], frame_of(packets[0]))
    &&& forall|i: int|
        0 < i < k ==> #[trigger] counter_of(packets[i]) == next_counter(counter_of(packets[i - 1]))
}

proof fn lemma_gapless_prefix(
    states: Seq<RadarCubeReader>,
    results: Seq<Result<Option<RadarCube>, SMSError>>,
    packets: Seq<Seq<u8>>,
    k: int,
)
    requires
        fed(states, results, packets),
        gapless_until(packets, k),
        1 <= k <= packets.len(),
    ensures
        filling(states[k], shape_of(packets[0]), frame_of(packets[0]), counter_of(packets[k - 1]), 0, 0),
        states[k].cube_index == min(samples_until(packets, k), states[k].cube@.len() as int),
        forall|i: int| 1 <= i < k ==> results[i] == Ok::<Option<RadarCube>, SMSError>(None),
    decreases k,
{
    assert(fed_step(states, results, packets, k - 1));
    if k == 1 {
        lemma_start_step(states[0], states[1], results[0], packets[0]);
    } else {
        lemma_gapless_prefix(states, results, packets, k - 1);
        assert(is_data_of(packets[k - 1], frame_of(packets[0])));
        assert(counter_of(packets[k - 1]) == next_counter(counter_of(packets[k - 2])));
        lemma_data_step(
            states[k - 1],
            states[k],
            results[k - 1],
            packets[k - 1],
            shape_of(packets[0]),
            0,
            0,
        );
    }
}

/// A frame streamed without loss yields, at its footer, either a cube with
/// no missing data, no skipped packets and the shape that the start of frame
/// announced, or `MissingCubeData` when the datagrams did not fill the cube;
/// when they carry at least as many samples as the cube holds, the cube.
pub proof fn lemma_gapless_frame(
    states: Seq<RadarCubeReader>,
    results: Seq<Result<Option<RadarCube>, SMSError>>,
    packets: Seq<Seq<u8>>,
)
    requires
        fed(states, results, packets),
        gapless_frame(packets),
    ensures
        match results.last() {
            Err(SMSError::MissingCubeData(_, _)) => true,
            Ok(Some(c)) => c.missing_data == 0 && c.packets_skipped == 0 && c.shape@ == shape_of(
                packets[0],
            ) && c.frame_counter == frame_of(packets[0]),
            _ => false,
        },
        samples_until(packets, packets.len() - 1) >= volume(shape_of(packets[0]))
            ==> results.last() is Ok,
        forall|i: int| 1 <= i < packets.len() - 1 ==> results[i] == Ok::<Option<RadarCube>, SMSError>(None),
{
    let n = packets.len() as int;
    lemma_gapless_prefix(states, results, packets, n - 1);
    assert(fed_step(states, results, packets, n - 1));
    lemma_footer_step(states[n - 1], states[n], results[n - 1], packets[n - 1], shape_of(packets[0]), 0, 0);
}

/// Whether `b` is a data datagram that the reader parses: a valid transport
/// header with a debug header flagged as frame data or end of data.
pub open spec fn is_any_data(b: Seq<u8>) -> bool {
    &&& transport_valid(b)
    &&& spec_debug_header(b) is Ok
    &&& (debug_of(b)[4] == FRAME_DATA || debug_of(b)[4] == END_OF_DATA)
}

proof fn lemma_any_data_step(
    old: RadarCubeReader,
    new: RadarCubeReader,
    r: Result<Option<RadarCube>, SMSError>,
    b: Seq<u8>,
)
    requires
        read_spec(old, new, r, b),
        old.cube_shape is Some,
        is_any_data(b),
    ensures
        new.cube_shape == old.cube_shape,
        new.frame_counter == old.frame_counter,
        !(r matches Ok(Some(_))),
{
}

proof fn lemma_data_keeps_frame(
    states: Seq<RadarCubeReader>,
    results: Seq<Result<Option<RadarCube>, SMSError>>,
    packets: Seq<Seq<u8>>,
    k: int,
)
    requires
        fed(states, results, packets),
        2 <= k < packets.len(),
        states[2].cube_shape is Some,
        forall|i: int| 2 <= i < packets.len() - 1 ==> #[trigger] is_any_data(packets[i]),
    ensures
        states[k].cube_shape is Some,
        states[k].frame_counter == states[2].frame_counter,
        forall|i: int| 2 <= i < k ==> !(#[trigger] results[i] matches Ok(Some(_))),
    decreases k,
{
    if k > 2 {
        lemma_data_keeps_frame(states, results, packets, k - 1);
        assert(fed_step(states, results, packets, k - 1));
        assert(is_any_data(packets[k - 1]));
        lemma_any_data_step(states[k - 1], states[k], results[k - 1], packets[k - 1]);
    }
}

/// Two start-of-frame datagrams of different frames A and B, then any data
/// datagrams, then a footer of A: the start of B reports
/// `FrameCounterError` for A, the footer reports `FrameCounterError`, no
/// call publishes a cube, and the reader ends idle.
pub proof fn lemma_interleaved_frames(
    states: Seq<RadarCubeReader>,
    results: Seq<Result<Option<RadarCube>, SMSError>>,
    packets: Seq<Seq<u8>>,
)
    requires
        fed(states, results, packets),
        packets.len() >= 3,
        opens_cube(packets[0]),
        opens_cube(packets[1]),
        frame_of(packets[0]) != frame_of(packets[1]),
        forall|i: int| 2 <= i < packets.len() - 1 ==> #[trigger] is_any_data(packets[i]),
        transport_valid(packets.last()),
        spec_debug_header(packets.last()) is Ok,
        debug_of(packets.last())[4] == FRAME_FOOTER,
        frame_of(packets.last()) == frame_of(packets[0]),
    ensures
        results[1] == Err::<Option<RadarCube>, SMSError>(SMSError::FrameCounterError),
        results.last() == Err::<Option<RadarCube>, SMSError>(SMSError::FrameCounterError),
        forall|i: int| 0 <= i < packets.len() ==> !(#[trigger] results[i] matches Ok(Some(_))),
        states.last().is_idle(),
{
    let n = packets.len() as int;
    assert(fed_step(states, results, packets, 0));
    assert(fed_step(states, results, packets, 1));
    assert(fed_step(states, results, packets, n - 1));
    lemma_start_step(states[0], states[1], results[0], packets[0]);
    lemma_start_step(states[1], states[2], results[1], packets[1]);
    lemma_data_keeps_frame(states, results, packets, n - 1);
    assert forall|i: int| 0 <= i < n implies !(#[trigger] results[i] matches Ok(Some(_))) by {
        if 2 <= i < n - 1 {
        }
    }
}

/// Payload bytes of the data datagram `b`.
pub open spec fn payload_len(b: Seq<u8>) -> int {
    debug_payload(debug_of(b)).len() as int
}

/// Whether `packets` is one frame in which exactly the message before data
/// datagram `j` was lost, and every other counter follows its predecessor.
pub open spec fn one_gap_frame(packets: Seq<Seq<u8>>, j: int) -> bool {
    let n = packets.len() as int;
    &&& n >= 3
    &&& 0 < j < n - 1
    &&& gapless_until(packets, j)
    &&& forall|i: int| j <= i < n - 1 ==> #[trigger] is_data_of(packets[i], frame_of(packets[0]))
    &&& counter_of(packets[j]) == next_counter(next_counter(counter_of(packets[j - 1])) as u16)
    &&& forall|i: int|
        j < i < n - 1 ==> #[trigger] counter_of(packets[i]) == next_counter(counter_of(packets[i - 1]))
    &&& is_footer_of(packets[n - 1], frame_of(packets[0]))
}

proof fn lemma_after_gap(
    states: Seq<RadarCubeReader>,
    results: Seq<Result<Option<RadarCube>, SMSError>>,
    packets: Seq<Seq<u8>>,
    j: int,
    k: int,
)
    requires
        fed(states, results, packets),
        one_gap_frame(packets, j),
        samples_until(packets, j) + payload_len(packets[j]) / 4 < volume(shape_of(packets[0])),
        j < k < packets.len(),
    ensures
        filling(
            states[k],
            shape_of(packets[0]),
            frame_of(packets[0]),
            counter_of(packets[k - 1]),
            payload_len(packets[j]) / 4,
            1,
        ),
        states[k].cube_index == min(
            samples_until(packets, k) + payload_len(packets[j]) / 4,
            states[k].cube@.len() as int,
        ),
    decreases k,
{
    assert(fed_step(states, results, packets, k - 1));
    assert(is_data_of(packets[k - 1], frame_of(packets[0])));
    if k == j + 1 {
        lemma_gapless_prefix(states, results, packets, j);
        lemma_gap_step(states[j], states[k], results[j], packets[j], shape_of(packets[0]));
    } else {
        lemma_after_gap(states, results, packets, j, k - 1);
        assert(counter_of(packets[k - 1]) == next_counter(counter_of(packets[k - 2])));
        lemma_data_step(
            states[k - 1],
            states[k],
            results[k - 1],
            packets[k - 1],
            shape_of(packets[0]),
            payload_len(packets[j]) / 4,
            1,
        );
    }
}

/// A frame that lost exactly one data datagram, whose space lies within the
/// cube (the samples before it and the lost ones are fewer than the cube
/// holds), still yields a cube at its footer: one packet counted as
/// skipped and the lost payload's samples, `L / 4` for a payload of `L`
/// bytes, counted as missing.  The cube is emitted whenever the samples
/// received and lost reach the cube's size; otherwise the footer reports
/// `MissingCubeData`.
pub proof fn lemma_one_gap_frame(
    states: Seq<RadarCubeReader>,
    results: Seq<Result<Option<RadarCube>, SMSError>>,
    packets: Seq<Seq<u8>>,
    j: int,
)
    requires
        fed(states, results, packets),
        one_gap_frame(packets, j),
        samples_until(packets, j) + payload_len(packets[j]) / 4 < volume(shape_of(packets[0])),
    ensures
        match results.last() {
            Err(SMSError::MissingCubeData(_, _)) => true,
            Ok(Some(c)) => c.missing_data == payload_len(packets[j]) / 4 && c.packets_skipped == 1,
            _ => false,
        },
        samples_until(packets, packets.len() - 1) + payload_len(packets[j]) / 4 >= volume(
            shape_of(packets[0]),
        ) ==> results.last() is Ok,
{
    let n = packets.len() as int;
    lemma_after_gap(states, results, packets, j, n - 1);
    assert(fed_step(states, results, packets, n - 1));
    lemma_footer_step(
        states[n - 1],
        states[n],
        results[n - 1],
        packets[n - 1],
        shape_of(packets[0]),
        payload_len(packets[j]) / 4,
        1,
    );
}


proof fn lemma_repeated_starts(
    states: Seq<RadarCubeReader>,
    results: Seq<Result<Option<RadarCube>, SMSError>>,
    packets: Seq<Seq<u8>>,
    fc: u32,
    k: int,
)
    requires
        fed(states, results, packets),
        states[0].is_idle(),
        1 <= k <= packets.len(),
        forall|i: int| 0 <= i < k ==> #[trigger] opens_cube(packets[i]) && frame_of(packets[i]) == fc,
    ensures
        states[k].cube_shape is Some,
        states[k].frame_counter == fc,
        forall|i: int| 0 <= i < k ==> results[i] == Ok::<Option<RadarCube>, SMSError>(None),
    decreases k,
{
    assert(fed_step(states, results, packets, k - 1));
    assert(opens_cube(packets[k - 1]) && frame_of(packets[k - 1]) == fc);
    if k > 1 {
        lemma_repeated_starts(states, results, packets, fc, k - 1);
    }
    lemma_start_step(states[k - 1], states[k], results[k - 1], packets[k - 1]);
}

/// A frame change in the middle of a cube: after any number of
/// start-of-frame datagrams of frame A, a start of frame B, then B's data
/// without loss and B's footer.  Exactly the start of B reports an error,
/// `FrameCounterError` for the abandoned frame A; the footer yields B's
/// cube with nothing missing (or `MissingCubeData` when B's datagrams did
/// not fill it), and no cube of A is ever published.
pub proof fn lemma_frame_change(
    states: Seq<RadarCubeReader>,
    results: Seq<Result<Option<RadarCube>, SMSError>>,
    packets: Seq<Seq<u8>>,
    a: int,
)
    requires
        fed(states, results, packets),
        states[0].is_idle(),
        1 <= a,
        forall|i: int| 0 <= i < a ==> #[trigger] opens_cube(packets[i]) && frame_of(packets[i]) == frame_of(packets[0]),
        a < packets.len(),
        frame_of(packets[a]) != frame_of(packets[0]),
        gapless_frame(packets.subrange(a, packets.len() as int)),
    ensures
        forall|i: int| 0 <= i < a ==> results[i] == Ok::<Option<RadarCube>, SMSError>(None),
        results[a] == Err::<Option<RadarCube>, SMSError>(SMSError::FrameCounterError),
        forall|i: int| a < i < packets.len() - 1 ==> results[i] == Ok::<Option<RadarCube>, SMSError>(None),
        match results.last() {
            Err(SMSError::MissingCubeData(_, _)) => true,
            Ok(Some(c)) => c.missing_data == 0 && c.packets_skipped == 0 && c.frame_counter
                == frame_of(packets[a]),
            _ => false,
        },
{
    let n = packets.len() as int;
    lemma_repeated_starts(states, results, packets, frame_of(packets[0]), a);
    assert(fed_step(states, results, packets, a));
    let st = states.subrange(a, n + 1);
    let rs = results.subrange(a, n);
    let ps = packets.subrange(a, n);
    assert forall|i: int| 0 <= i < ps.len() implies #[trigger] fed_step(st, rs, ps, i) by {
        assert(fed_step(states, results, packets, i + a));
    }
    lemma_gapless_frame(st, rs, ps);
    assert forall|i: int| a < i < n - 1 implies results[i] == Ok::<Option<RadarCube>, SMSError>(
        None,
    ) by {
        assert(rs[i - a] == results[i]);
    }
    assert(rs.last() == results.last());
}

} // verus!
