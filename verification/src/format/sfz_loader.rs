use crate::base::FloatBits;
use crate::processing::{AdsrTimes, MidiRegion};
use vstd::prelude::*;

verus! {

/// Number of voices of a sampler that is built from an SFZ patch.
pub const POLYPHONY: usize = 64;

/// Default attack of a region: the bits of `0.001` seconds.
pub const DEFAULT_ATTACK: FloatBits = 0x3A83_126F;

/// Default release of a region: the bits of `0.03` seconds.
pub const DEFAULT_RELEASE: FloatBits = 0x3CF5_C28F;

/// Default root note of a region.
pub const DEFAULT_ROOT_NOTE: u8 = 48;

/// The opcodes of an SFZ patch that a sound is built from. Any other opcode
/// is `Other` and changes nothing.
#[derive(Debug)]
pub enum RegionOpcode {
    /// `ampeg_attack`: attack time in seconds.
    AmpegAttack(FloatBits),
    /// `ampeg_release`: release time in seconds.
    AmpegRelease(FloatBits),
    /// `hikey`: highest note of the region.
    HiKey(u8),
    /// `hivel`: highest velocity of the region.
    HiVel(u8),
    /// `lokey`: lowest note of the region.
    LoKey(u8),
    /// `lovel`: lowest velocity of the region.
    LoVel(u8),
    /// `pitch_keycenter`: root note of the sample.
    PitchKeycenter(u8),
    /// `sample`: path of the audio file.
    Sample(String),
    /// An opcode that the loader does not use.
    Other,
}

/// An opcode, with the path as a sequence of characters.
pub enum Opcode {
    AmpegAttack(FloatBits),
    AmpegRelease(FloatBits),
    HiKey(u8),
    HiVel(u8),
    LoKey(u8),
    LoVel(u8),
    PitchKeycenter(u8),
    Sample(Seq<char>),
    Other,
}

impl View for RegionOpcode {
    type V = Opcode;

    open spec fn view(&self) -> Opcode {
        match *self {
            RegionOpcode::AmpegAttack(attack) => Opcode::AmpegAttack(attack),
            RegionOpcode::AmpegRelease(release) => Opcode::AmpegRelease(release),
            RegionOpcode::HiKey(note) => Opcode::HiKey(note),
            RegionOpcode::HiVel(velocity) => Opcode::HiVel(velocity),
            RegionOpcode::LoKey(note) => Opcode::LoKey(note),
            RegionOpcode::LoVel(velocity) => Opcode::LoVel(velocity),
            RegionOpcode::PitchKeycenter(note) => Opcode::PitchKeycenter(note),
            RegionOpcode::Sample(path) => Opcode::Sample(path@),
            RegionOpcode::Other => Opcode::Other,
        }
    }
}

/// The opcodes of a list, in its order.
pub open spec fn opcodes_of(list: Seq<RegionOpcode>) -> Seq<Opcode> {
    Seq::new(list.len(), |i: int| list[i]@)
}

/// What it takes to load the sound of one region.
#[derive(Debug)]
pub struct SoundRequest {
    /// Path of the audio file.
    pub file_path: String,
    /// Root midi note, lowest midi note, highest midi note, lowest velocity,
    /// highest velocity.
    pub midi_region: MidiRegion,
    /// ADSR envelope in seconds.
    pub adsr: AdsrTimes,
}

/// A request, with the path as a sequence of characters.
pub struct Request {
    pub file_path: Seq<char>,
    pub midi_region: MidiRegion,
    pub adsr: AdsrTimes,
}

impl View for SoundRequest {
    type V = Request;

    open spec fn view(&self) -> Request {
        Request { file_path: self.file_path@, midi_region: self.midi_region, adsr: self.adsr }
    }
}

/// Whether the bytes of a path end in `.wav`.
pub open spec fn ends_in_wav(path: Seq<u8>) -> bool {
    &&& path.len() >= 4
    &&& path[path.len() - 4] == 0x2E
    &&& path[path.len() - 3] == 0x77
    &&& path[path.len() - 2] == 0x61
    &&& path[path.len() - 1] == 0x76
}

/// Audio file sound builder.
#[derive(Debug)]
pub struct AudioFileSoundBuilder {
    pub attack: FloatBits,
    pub file_path: String,
    pub high_note: u8,
    pub high_velocity: u8,
    pub low_note: u8,
    pub low_velocity: u8,
    pub release: FloatBits,
    pub root_note: u8,
}

/// The settings of a builder, with the path as a sequence of characters.
pub struct Settings {
    pub attack: FloatBits,
    pub file_path: Seq<char>,
    pub high_note: u8,
    pub high_velocity: u8,
    pub low_note: u8,
    pub low_velocity: u8,
    pub release: FloatBits,
    pub root_note: u8,
}

impl Settings {
    /// The settings of a new builder: the whole range of notes and
    /// velocities, root note 48, attack 0.001 s, release 0.03 s, and no file.
    pub open spec fn fresh() -> Self {
        Settings {
            attack: DEFAULT_ATTACK,
            file_path: Seq::empty(),
            high_note: 127,
            high_velocity: 127,
            low_note: 0,
            low_velocity: 0,
            release: DEFAULT_RELEASE,
            root_note: DEFAULT_ROOT_NOTE,
        }
    }

    /// The settings after an opcode was applied: the opcode replaces the one
    /// setting that it names, and an opcode that names none changes nothing.
    pub open spec fn applied(self, opcode: Opcode) -> Self {
        match opcode {
            Opcode::AmpegAttack(attack) => Settings { attack, ..self },
            Opcode::AmpegRelease(release) => Settings { release, ..self },
            Opcode::HiKey(note) => Settings { high_note: note, ..self },
            Opcode::HiVel(velocity) => Settings { high_velocity: velocity, ..self },
            Opcode::LoKey(note) => Settings { low_note: note, ..self },
            Opcode::LoVel(velocity) => Settings { low_velocity: velocity, ..self },
            Opcode::PitchKeycenter(note) => Settings { root_note: note, ..self },
            Opcode::Sample(path) => Settings { file_path: path, ..self },
            Opcode::Other => self,
        }
    }

    /// The settings after each of `opcodes` was applied, the first of them
    /// first: of two opcodes for one setting the later one stands.
    pub open spec fn applied_all(self, opcodes: Seq<Opcode>) -> Self
        decreases opcodes.len(),
    {
        if opcodes.len() == 0 {
            self
        } else {
            self.applied_all(opcodes.drop_last()).applied(opcodes.last())
        }
    }

    /// The settings of one region: those of a new builder to which the
    /// opcodes of the patch, of the group and of the region were applied, in
    /// this order, so that the narrower scope overrides the wider one.
    pub open spec fn of_region(
        global: Seq<Opcode>,
        group: Seq<Opcode>,
        region: Seq<Opcode>,
    ) -> Self {
        Self::fresh().applied_all(global).applied_all(group).applied_all(region)
    }

    /// The request that the settings stand for, or `None` where the file is
    /// not in a supported format: only paths that end in `.wav` are.
    pub open spec fn request(self) -> Option<Request> {
        if ends_in_wav(vstd::utf8::encode_utf8(self.file_path)) {
            Some(
                Request {
                    file_path: self.file_path,
                    midi_region: (
                        self.root_note,
                        self.low_note,
                        self.high_note,
                        self.low_velocity,
                        self.high_velocity,
                    ),
                    adsr: (self.attack, 0, 0, self.release),
                },
            )
        } else {
            None
        }
    }
}

impl View for AudioFileSoundBuilder {
    type V = Settings;

    open spec fn view(&self) -> Settings {
        Settings {
            attack: self.attack,
            file_path: self.file_path@,
            high_note: self.high_note,
            high_velocity: self.high_velocity,
            low_note: self.low_note,
            low_velocity: self.low_velocity,
            release: self.release,
            root_note: self.root_note,
        }
    }
}

impl AudioFileSoundBuilder {
    /// Creates new sound builder.
    pub fn new() -> (builder: AudioFileSoundBuilder)
        ensures
            builder@ == Settings::fresh(),
    {
        AudioFileSoundBuilder {
            attack: DEFAULT_ATTACK,
            file_path: String::new(),
            high_note: 127,
            high_velocity: 127,
            low_note: 0,
            low_velocity: 0,
            release: DEFAULT_RELEASE,
            root_note: DEFAULT_ROOT_NOTE,
        }
    }

    /// Applies opcode to sound.
    pub fn apply(&mut self, opcode: &RegionOpcode)
        ensures
            final(self)@ == old(self)@.applied(opcode@),
    {
        match opcode {
            RegionOpcode::AmpegAttack(attack) => self.attack = *attack,
            RegionOpcode::AmpegRelease(release) => self.release = *release,
            RegionOpcode::HiKey(note) => self.high_note = *note,
            RegionOpcode::HiVel(velocity) => self.high_velocity = *velocity,
            RegionOpcode::LoKey(note) => self.low_note = *note,
            RegionOpcode::LoVel(velocity) => self.low_velocity = *velocity,
            RegionOpcode::PitchKeycenter(note) => self.root_note = *note,
            RegionOpcode::Sample(path) => self.file_path = path.clone(),
            RegionOpcode::Other => (),
        }
    }

    /// Applies opcodes to sound, the first of them first.
    pub fn apply_all(&mut self, opcodes: &Vec<RegionOpcode>)
        ensures
            final(self)@ == old(self)@.applied_all(opcodes_of(opcodes@)),
    {
        let ghost all = opcodes_of(opcodes@);
        let mut i: usize = 0;
        while i < opcodes.len()
            invariant
                i <= opcodes.len(),
                all == opcodes_of(opcodes@),
                self@ == old(self)@.applied_all(all.take(i as int)),
            decreases opcodes.len() - i,
        {
            assert(all.take(i + 1).drop_last() =~= all.take(i as int));
            self.apply(&opcodes[i]);
            i += 1;
        }
        assert(all.take(i as int) =~= all);
    }

    /// Builds the request for the sound, or [None] where the file is not in a
    /// supported format.
    pub fn build(&self) -> (request: Option<SoundRequest>)
        ensures
            match request {
                Some(request) => self@.request() == Some(request@),
                None => self@.request() is None,
            },
    {
        let bytes: &[u8] = self.file_path.as_str().as_bytes();
        let len: usize = bytes.len();
        if len >= 4 && bytes[len - 4] == 0x2E && bytes[len - 3] == 0x77 && bytes[len - 2] == 0x61
            && bytes[len - 1] == 0x76 {
            Some(
                SoundRequest {
                    file_path: self.file_path.clone(),
                    midi_region: (
                        self.root_note,
                        self.low_note,
                        self.high_note,
                        self.low_velocity,
                        self.high_velocity,
                    ),
                    adsr: (self.attack, 0, 0, self.release),
                },
            )
        } else {
            None
        }
    }
}

/// Loader for SFZ-based samplers.
pub struct SfzLoader {}

impl SfzLoader {
    /// The request for the sound of one region, from the opcodes of the whole
    /// patch, of the region's group and of the region itself: the opcodes
    /// apply in this order to a new builder. [None] where the file of the
    /// region is not in a supported format.
    pub fn region_sound(
        global: &Vec<RegionOpcode>,
        group: &Vec<RegionOpcode>,
        region: &Vec<RegionOpcode>,
    ) -> (request: Option<SoundRequest>)
        ensures
            match request {
                Some(request) => Settings::of_region(
                    opcodes_of(global@),
                    opcodes_of(group@),
                    opcodes_of(region@),
                ).request() == Some(request@),
                None => Settings::of_region(
                    opcodes_of(global@),
                    opcodes_of(group@),
                    opcodes_of(region@),
                ).request() is None,
            },
    {
        let mut sound_builder = AudioFileSoundBuilder::new();
        sound_builder.apply_all(global);
        sound_builder.apply_all(group);
        sound_builder.apply_all(region);
        sound_builder.build()
    }
}

} // verus!
