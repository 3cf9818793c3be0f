//! MIDI over USB: the scale that the board plays, and the messages it understands.
use vstd::prelude::*;

verus! {

/// The lowest note of the scale.
pub const FIRST_NOTE: u8 = 60;

/// The highest note of the scale.
pub const LAST_NOTE: u8 = 72;

/// How hard each note is struck and released.
pub const VELOCITY: u8 = 64;

/// How long each note sounds, and how long the silence after it lasts, in milliseconds.
pub const NOTE_MS: u64 = 500;

/// A USB MIDI event packet: four bytes, of which the first tells the kind of the message in the
/// other three.
#[derive(Clone, Copy, Debug, PartialEq, Eq, Structural)]
pub struct Packet {
    pub header: u8,
    pub status: u8,
    pub note: u8,
    pub velocity: u8,
}

impl Packet {
    pub open spec fn spec_bytes(self) -> Seq<u8> {
        seq![self.header, self.status, self.note, self.velocity]
    }

    /// The packet as it goes over the wire.
    pub fn bytes(&self) -> (r: [u8; 4])
        ensures
            r@ == self.spec_bytes(),
            r@ == seq![self.header, self.status, self.note, self.velocity],
    {
        [self.header, self.status, self.note, self.velocity]
    }
}

/// Where the player stands.
#[derive(Clone, Copy, Debug, PartialEq, Eq, Structural)]
pub enum NoteStep {
    Strike,
    Sound,
    Release,
    Silence,
}

/// What the player has to do.
#[derive(Clone, Copy, Debug, PartialEq, Eq, Structural)]
pub enum MidiAction {
    Send(Packet),
    /// Let this many milliseconds pass.
    Wait(u64),
}

/// The note in hand and where the player stands with it.
pub struct PlayerView {
    pub pitch: u8,
    pub step: NoteStep,
}

/// Note On, on the first channel.
pub open spec fn note_on(pitch: u8) -> Packet {
    Packet { header: 0x09, status: 0x90, note: pitch, velocity: 64 }
}

/// Note Off, on the first channel.
pub open spec fn note_off(pitch: u8) -> Packet {
    Packet { header: 0x08, status: 0x80, note: pitch, velocity: 64 }
}

/// The note after `pitch`: one up, and from the top back to the bottom.
pub open spec fn pitch_after(pitch: u8) -> u8 {
    if pitch < 72 {
        (pitch + 1) as u8
    } else {
        60
    }
}

/// What the player has to do where it stands.
pub open spec fn midi_action_at(player: PlayerView) -> MidiAction {
    match player.step {
        NoteStep::Strike => MidiAction::Send(note_on(player.pitch)),
        NoteStep::Sound => MidiAction::Wait(500),
        NoteStep::Release => MidiAction::Send(note_off(player.pitch)),
        NoteStep::Silence => MidiAction::Wait(500),
    }
}

/// The player once that is done, whether or not a packet got through.
pub open spec fn player_after(player: PlayerView) -> PlayerView {
    match player.step {
        NoteStep::Strike => PlayerView { step: NoteStep::Sound, ..player },
        NoteStep::Sound => PlayerView { step: NoteStep::Release, ..player },
        NoteStep::Release => PlayerView { step: NoteStep::Silence, ..player },
        NoteStep::Silence => PlayerView {
            pitch: pitch_after(player.pitch),
            step: NoteStep::Strike,
        },
    }
}

/// Plays a scale for ever, note by note.
pub struct MidiTask {
    pitch: u8,
    step: NoteStep,
}

impl View for MidiTask {
    type V = PlayerView;

    closed spec fn view(&self) -> PlayerView {
        PlayerView { pitch: self.pitch, step: self.step }
    }
}

impl MidiTask {
    /// The player before its first note.
    pub fn new() -> (r: Self)
        ensures
            r@ == (PlayerView { pitch: 60, step: NoteStep::Strike }),
    {
        MidiTask { pitch: FIRST_NOTE, step: NoteStep::Strike }
    }

    /// What has to be done now.
    pub fn action(&self) -> (r: MidiAction)
        ensures
            r == midi_action_at(self@),
            self@.step is Strike ==> r == MidiAction::Send(
                Packet { header: 0x09, status: 0x90, note: self@.pitch, velocity: 64 },
            ),
            self@.step is Release ==> r == MidiAction::Send(
                Packet { header: 0x08, status: 0x80, note: self@.pitch, velocity: 64 },
            ),
            self@.step is Sound || self@.step is Silence ==> r == MidiAction::Wait(500),
    {
        match self.step {
            NoteStep::Strike => MidiAction::Send(
                Packet { header: 0x09, status: 0x90, note: self.pitch, velocity: VELOCITY },
            ),
            NoteStep::Sound => MidiAction::Wait(NOTE_MS),
            NoteStep::Release => MidiAction::Send(
                Packet { header: 0x08, status: 0x80, note: self.pitch, velocity: VELOCITY },
            ),
            NoteStep::Silence => MidiAction::Wait(NOTE_MS),
        }
    }

    /// Goes on, the action being done.
    pub fn advance(&mut self)
        ensures
            final(self)@ == player_after(old(self)@),
            old(self)@.step is Strike ==> final(self)@.step is Sound,
            old(self)@.step is Sound ==> final(self)@.step is Release,
            old(self)@.step is Release ==> final(self)@.step is Silence,
            old(self)@.step is Silence ==> final(self)@.step is Strike,
            !(old(self)@.step is Silence) ==> final(self)@.pitch == old(self)@.pitch,
            old(self)@.step is Silence && old(self)@.pitch < 72 ==> final(self)@.pitch == old(
                self,
            )@.pitch + 1,
            old(self)@.step is Silence && old(self)@.pitch >= 72 ==> final(self)@.pitch == 60,
    {
        match self.step {
            NoteStep::Strike => self.step = NoteStep::Sound,
            NoteStep::Sound => self.step = NoteStep::Release,
            NoteStep::Release => self.step = NoteStep::Silence,
            NoteStep::Silence => {
                self.pitch = if self.pitch < LAST_NOTE {
                    self.pitch + 1
                } else {
                    FIRST_NOTE
                };
                self.step = NoteStep::Strike;
            },
        }
    }
}

/// The player after `n` actions.
pub open spec fn player_run(player: PlayerView, n: nat) -> PlayerView
    decreases n,
{
    if n == 0 {
        player
    } else {
        player_after(player_run(player, (n - 1) as nat))
    }
}

/// Every note is struck, sounds for half a second, is released and is followed by half a second
/// of silence. Then comes the next note.
pub proof fn law_note(pitch: u8)
    ensures
        ({
            let player = PlayerView { pitch, step: NoteStep::Strike };
            &&& midi_action_at(player) == MidiAction::Send(note_on(pitch))
            &&& midi_action_at(player_run(player, 1)) == MidiAction::Wait(500)
            &&& midi_action_at(player_run(player, 2)) == MidiAction::Send(note_off(pitch))
            &&& midi_action_at(player_run(player, 3)) == MidiAction::Wait(500)
            &&& player_run(player, 4) == PlayerView {
                pitch: pitch_after(pitch),
                step: NoteStep::Strike,
            }
        }),
{
    reveal_with_fuel(player_run, 5);
}

/// A note goes over the wire as Note On and then as Note Off, on one and the same channel, the
/// first, with the same velocity.
pub proof fn law_note_bytes(pitch: u8)
    ensures
        note_on(pitch).spec_bytes() == seq![0x09u8, 0x90u8, pitch, 64u8],
        note_off(pitch).spec_bytes() == seq![0x08u8, 0x80u8, pitch, 64u8],
        midi_action_at(PlayerView { pitch, step: NoteStep::Strike }) == MidiAction::Send(
            Packet { header: 0x09, status: 0x90, note: pitch, velocity: 64 },
        ),
        midi_action_at(PlayerView { pitch, step: NoteStep::Release }) == MidiAction::Send(
            Packet { header: 0x08, status: 0x80, note: pitch, velocity: 64 },
        ),
        note_on(pitch).status - note_off(pitch).status == 0x10,
{
}

/// Whatever is struck next comes a half tone higher, or from the bottom once the top is reached;
/// the pitch changes at no other time.
pub proof fn law_pitch_steps(player: PlayerView)
    ensures
        !(player.step is Silence) ==> player_after(player).pitch == player.pitch,
        player.step is Silence && player.pitch < 72 ==> player_after(player).pitch == player.pitch
            + 1,
        player.step is Silence && player.pitch >= 72 ==> player_after(player).pitch == 60,
        player.step is Silence <==> player_after(player).step is Strike,
        player.step is Strike <==> player_after(player).step is Sound,
        player.step is Sound <==> player_after(player).step is Release,
{
}

/// The notes climb from the bottom of the scale to the top, one after the other, and begin again.
pub proof fn law_scale(n: nat)
    ensures
        player_run(PlayerView { pitch: 60, step: NoteStep::Strike }, 4 * n) == (PlayerView {
            pitch: (60 + n % 13) as u8,
            step: NoteStep::Strike,
        }),
    decreases n,
{
    if n > 0 {
        let m = (n - 1) as nat;
        law_scale(m);
        lemma_next_note(PlayerView { pitch: 60, step: NoteStep::Strike }, 4 * m);
        lemma_scale_wraps(m);
    }
}

/// Four actions after a note is due, the next one is.
proof fn lemma_next_note(player: PlayerView, k: nat)
    requires
        player_run(player, k).step is Strike,
    ensures
        player_run(player, k + 4) == (PlayerView {
            pitch: pitch_after(player_run(player, k).pitch),
            step: NoteStep::Strike,
        }),
{
    assert(player_run(player, k + 1) == player_after(player_run(player, k)));
    assert(player_run(player, k + 2) == player_after(player_run(player, k + 1)));
    assert(player_run(player, k + 3) == player_after(player_run(player, k + 2)));
    assert(player_run(player, k + 4) == player_after(player_run(player, k + 3)));
}

/// The note that follows the note number `m`.
proof fn lemma_scale_wraps(m: nat)
    ensures
        pitch_after((60 + m % 13) as u8) == (60 + (m + 1) % 13) as u8,
{
}

/// The player never leaves the scale.
pub proof fn law_pitch_range(player: PlayerView)
    requires
        60 <= player.pitch <= 72,
    ensures
        60 <= player_after(player).pitch <= 72,
{
}

/// A message as the board understands it.
#[derive(Clone, Copy, Debug, PartialEq, Eq, Structural)]
pub enum NoteEvent {
    On { note: u8, velocity: u8 },
    Off { note: u8 },
    /// No note message.
    Other,
}

/// The messages of one read from the host, in order. A read brings no more than 64 bytes, which
/// is room for sixteen.
pub struct NoteList {
    events: [NoteEvent; 16],
    len: usize,
}

impl View for NoteList {
    type V = Seq<NoteEvent>;

    closed spec fn view(&self) -> Seq<NoteEvent> {
        self.events@.take(self.len as int)
    }
}

impl NoteList {
    #[verifier::type_invariant]
    spec fn wf(&self) -> bool {
        self.len <= 16
    }

    /// How many messages there are.
    pub fn len(&self) -> (r: usize)
        ensures
            r == self@.len(),
    {
        proof {
            use_type_invariant(self);
        }
        self.len
    }

    /// The message number `i`, if there are so many.
    pub fn get(&self, i: usize) -> (r: Option<NoteEvent>)
        ensures
            r == (if i < self@.len() {
                Some(self@[i as int])
            } else {
                None
            }),
    {
        proof {
            use_type_invariant(self);
        }
        if i < self.len {
            Some(self.events[i])
        } else {
            None
        }
    }
}

/// What follows a read from the host.
pub enum RxAction {
    /// These messages came.
    Notes(NoteList),
    /// The read failed.
    CountFailure,
}

/// What a message means, on whichever channel it comes. A note struck with no velocity is a note
/// released.
pub open spec fn note_event(status: u8, note: u8, velocity: u8) -> NoteEvent {
    if status / 16 == 9 && velocity > 0 {
        NoteEvent::On { note, velocity }
    } else if status / 16 == 9 || status / 16 == 8 {
        NoteEvent::Off { note }
    } else {
        NoteEvent::Other
    }
}

/// What `data` means: one message for each whole packet of four bytes. Bytes that are left over at
/// the end mean nothing.
pub open spec fn note_events(data: Seq<u8>) -> Seq<NoteEvent> {
    Seq::new(
        data.len() / 4,
        |i: int| note_event(data[4 * i + 1], data[4 * i + 2], data[4 * i + 3]),
    )
}

/// What a message means.
pub fn decode(status: u8, note: u8, velocity: u8) -> (r: NoteEvent)
    ensures
        r == note_event(status, note, velocity),
        0x90 <= status <= 0x9F && velocity > 0 ==> r == (NoteEvent::On { note, velocity }),
        0x90 <= status <= 0x9F && velocity == 0 ==> r == (NoteEvent::Off { note }),
        0x80 <= status <= 0x8F ==> r == (NoteEvent::Off { note }),
        status < 0x80 || status > 0x9F ==> r is Other,
{
    assert(status & 0xF0 == 0x90 <==> status / 16 == 9) by (bit_vector);
    assert(status & 0xF0 == 0x80 <==> status / 16 == 8) by (bit_vector);
    if (status & 0xF0) == 0x90 {
        if velocity > 0 {
            NoteEvent::On { note, velocity }
        } else {
            NoteEvent::Off { note }
        }
    } else if (status & 0xF0) == 0x80 {
        NoteEvent::Off { note }
    } else {
        NoteEvent::Other
    }
}

/// What follows a read from the host that filled the first bytes of `buf`, as many as `read` says,
/// or failed.
pub fn receive<E>(buf: &[u8; 64], read: Result<usize, E>) -> (r: RxAction)
    requires
        read matches Ok(n) ==> n <= 64,
    ensures
        match read {
            Ok(n) => r matches RxAction::Notes(list) && list@ == note_events(buf@.take(n as int)),
            Err(_) => r is CountFailure,
        },
        read matches Ok(n) ==> r is Notes && r->Notes_0@.len() == n as int / 4 && forall|i: int|
            0 <= i < n as int / 4 ==> #[trigger] r->Notes_0@[i] == note_event(
                buf@[4 * i + 1],
                buf@[4 * i + 2],
                buf@[4 * i + 3],
            ),
{
    match read {
        Ok(n) => {
            let mut events: [NoteEvent; 16] = [NoteEvent::Other; 16];
            let mut len: usize = 0;
            let ghost expected = note_events(buf@.take(n as int));
            while n - 4 * len >= 4
                invariant
                    n <= 64,
                    4 * len <= n,
                    expected == note_events(buf@.take(n as int)),
                    forall|i: int| 0 <= i < len ==> events@[i] == #[trigger] expected[i],
                decreases n - 4 * len,
            {
                let at: usize = 4 * len;
                events[len] = decode(buf[at + 1], buf[at + 2], buf[at + 3]);
                len = len + 1;
            }
            let list = NoteList { events, len };
            assert(list@ =~= expected);
            RxAction::Notes(list)
        },
        Err(_) => RxAction::CountFailure,
    }
}

/// On every channel a note struck with any velocity but none is that note with that velocity; with
/// none, or released, it is that note released. Nothing else is a note message.
pub proof fn law_note_messages(channel: u8, status: u8, note: u8, velocity: u8)
    requires
        channel < 16,
    ensures
        velocity > 0 ==> note_event((0x90 + channel) as u8, note, velocity) == (NoteEvent::On {
            note,
            velocity,
        }),
        note_event((0x90 + channel) as u8, note, 0) == (NoteEvent::Off { note }),
        note_event((0x80 + channel) as u8, note, velocity) == (NoteEvent::Off { note }),
        status < 0x80 || status > 0x9F <==> note_event(status, note, velocity) is Other,
{
}

/// Each whole packet of a read gives one message, in its place; what the message is rests with the
/// packet's last three bytes alone.
pub proof fn law_one_message_a_packet(data: Seq<u8>, i: int)
    requires
        0 <= i,
        4 * i + 4 <= data.len(),
    ensures
        4 * note_events(data).len() <= data.len() < 4 * note_events(data).len() + 4,
        0x90 <= data[4 * i + 1] <= 0x9F && data[4 * i + 3] > 0 ==> note_events(data)[i] == (
        NoteEvent::On { note: data[4 * i + 2], velocity: data[4 * i + 3] }),
        0x90 <= data[4 * i + 1] <= 0x9F && data[4 * i + 3] == 0 ==> note_events(data)[i] == (
        NoteEvent::Off { note: data[4 * i + 2] }),
        0x80 <= data[4 * i + 1] <= 0x8F ==> note_events(data)[i] == (NoteEvent::Off {
            note: data[4 * i + 2],
        }),
        data[4 * i + 1] < 0x80 || data[4 * i + 1] > 0x9F ==> note_events(data)[i] is Other,
{
}

/// The channel of a note message does not matter.
pub proof fn law_any_channel(status1: u8, status2: u8, note: u8, velocity: u8)
    requires
        status1 & 0xF0 == status2 & 0xF0,
    ensures
        note_event(status1, note, velocity) == note_event(status2, note, velocity),
{
    assert(status1 / 16 == status2 / 16) by (bit_vector)
        requires
            status1 & 0xF0 == status2 & 0xF0,
    ;
}

/// A note struck with no velocity means the same as a note released, with whatever velocity.
pub proof fn law_silent_note_on(channel: u8, note: u8, velocity: u8)
    requires
        channel < 16,
    ensures
        note_event((0x90 + channel) as u8, note, 0) == note_event(
            (0x80 + channel) as u8,
            note,
            velocity,
        ),
{
}

/// Left-over bytes at the end change nothing.
pub proof fn law_whole_packets(data: Seq<u8>)
    ensures
        note_events(data) == note_events(data.take(data.len() - data.len() % 4)),
{
    let whole = data.take(data.len() - data.len() % 4);
    assert(note_events(data) =~= note_events(whole));
}

/// Packets that come one after the other mean what they mean alone.
pub proof fn law_packet_by_packet(data: Seq<u8>, more: Seq<u8>)
    requires
        data.len() % 4 == 0,
    ensures
        note_events(data + more) == note_events(data) + note_events(more),
{
    let both = data + more;
    assert forall|i: int| 0 <= i < note_events(both).len() implies note_events(both)[i] == (
    note_events(data) + note_events(more))[i] by {
        let k = i - data.len() / 4;
        if k >= 0 {
            assert(4 * i == data.len() + 4 * k);
        }
    }
    assert(note_events(both) =~= note_events(data) + note_events(more));
}

/// The board understands what it plays: the packets of a note mean the note struck, and the note
/// released.
pub proof fn law_plays_what_it_understands(pitch: u8)
    ensures
        note_events(note_on(pitch).spec_bytes()) == seq![
            NoteEvent::On { note: pitch, velocity: 64 },
        ],
        note_events(note_off(pitch).spec_bytes()) == seq![NoteEvent::Off { note: pitch }],
{
    assert(note_events(note_on(pitch).spec_bytes()) =~= seq![
        NoteEvent::On { note: pitch, velocity: 64 },
    ]);
    assert(note_events(note_off(pitch).spec_bytes()) =~= seq![NoteEvent::Off { note: pitch }]);
}

} // verus!
