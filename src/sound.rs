//! The MCI command strings that play the alert sound, and how a sound file's
//! extension picks the MCI device type.
use vstd::prelude::*;

use crate::targets::ascii_lower_seq;
use crate::home::{extension, file_extension};
use crate::text::{decimal, decimal_string};

verus! {

/// The alias text for a playback's number.
pub open spec fn alias_text(alias_id: nat) -> Seq<char> {
    "piing_problem_sound_"@ + decimal(alias_id)
}

/// The alias under which one playback opens its sound.
pub fn make_alias(alias_id: usize) -> (r: String)
    ensures
        r@ == alias_text(alias_id as nat),
{
    let mut s = "piing_problem_sound_".to_owned();
    s.append(decimal_string(alias_id as u64).as_str());
    s
}

/// Opens a sound file, letting MCI pick the device type.
pub fn build_open_cmd(path: &str, alias: &str) -> (r: String)
    ensures
        r@ == "open \""@ + path@ + "\" alias "@ + alias@,
{
    let mut s = "open \"".to_owned();
    s.append(path);
    s.append("\" alias ");
    s.append(alias);
    s
}

/// Opens a sound file with an explicit device type.
pub fn build_open_cmd_with_type(path: &str, alias: &str, mci_type: &str) -> (r: String)
    ensures
        r@ == "open \""@ + path@ + "\" type "@ + mci_type@ + " alias "@ + alias@,
{
    let mut s = "open \"".to_owned();
    s.append(path);
    s.append("\" type ");
    s.append(mci_type);
    s.append(" alias ");
    s.append(alias);
    s
}

/// Sets the playback volume, with the `output` modifier most drivers expect.
pub fn build_set_cmd(alias: &str, volume_value: u32) -> (r: String)
    ensures
        r@ == "setaudio "@ + alias@ + " output volume to "@ + decimal(volume_value as nat),
{
    let mut s = "setaudio ".to_owned();
    s.append(alias);
    s.append(" output volume to ");
    s.append(decimal_string(volume_value as u64).as_str());
    s
}

/// The volume commands to try in order: with `output`, then the shorter form
/// older drivers accept.
pub fn build_set_cmd_variants(alias: &str, volume_value: u32) -> (r: Vec<String>)
    ensures
        r@.len() == 2,
        r@[0]@ == "setaudio "@ + alias@ + " output volume to "@ + decimal(volume_value as nat),
        r@[1]@ == "setaudio "@ + alias@ + " volume to "@ + decimal(volume_value as nat),
{
    let first = build_set_cmd(alias, volume_value);
    let mut second = "setaudio ".to_owned();
    second.append(alias);
    second.append(" volume to ");
    second.append(decimal_string(volume_value as u64).as_str());
    let mut r: Vec<String> = Vec::new();
    r.push(first);
    r.push(second);
    r
}

/// Plays from the start and returns when playback ends.
pub fn build_play_cmd(alias: &str) -> (r: String)
    ensures
        r@ == "play "@ + alias@ + " from 0 wait"@,
{
    let mut s = "play ".to_owned();
    s.append(alias);
    s.append(" from 0 wait");
    s
}

/// Closes the device opened under the alias.
pub fn build_close_cmd(alias: &str) -> (r: String)
    ensures
        r@ == "close "@ + alias@,
{
    let mut s = "close ".to_owned();
    s.append(alias);
    s
}

/// The MCI device type for a sound file's extension, in any ASCII case.
pub open spec fn mci_type_for(path: Seq<char>) -> Option<Seq<char>> {
    match extension(path) {
        Some(ext) => {
            let e = ascii_lower_seq(ext);
            if e == seq!['w', 'a', 'v'] {
                Some("waveaudio"@)
            } else if e == seq!['m', 'p', '3'] || e == seq!['w', 'm', 'a'] {
                Some("mpegvideo"@)
            } else {
                None
            }
        },
        None => None,
    }
}

/// The MCI device type for a sound file; see `mci_type_for`.
pub fn infer_mci_type(path: &str) -> (r: Option<&'static str>)
    ensures
        match r {
            Some(t) => mci_type_for(path@) == Some(t@),
            None => mci_type_for(path@) is None,
        },
{
    let ext = match file_extension(path) {
        Some(e) => e,
        None => return None,
    };
    proof {
        reveal_strlit("wav");
        reveal_strlit("mp3");
        reveal_strlit("wma");
        assert("wav"@ =~= seq!['w', 'a', 'v']);
        assert("mp3"@ =~= seq!['m', 'p', '3']);
        assert("wma"@ =~= seq!['w', 'm', 'a']);
    }
    if crate::targets::lower_equals(ext, "wav") {
        Some("waveaudio")
    } else if crate::targets::lower_equals(ext, "mp3") || crate::targets::lower_equals(ext, "wma") {
        Some("mpegvideo")
    } else {
        None
    }
}

/// How a playback ended: played, or failed with the error of a given step
/// (counted from 0).
#[derive(Debug, Clone, Copy, PartialEq, Eq, Structural)]
pub enum PlayResult {
    Played,
    FailedAt(usize),
}

/// Where a playback stands: the step last asked for, awaiting its result.
#[derive(Debug, Clone, Copy, PartialEq, Eq, Structural)]
pub enum MciState {
    /// Opening without a device type.
    Open,
    /// Opening with the type the extension gives, after the first open failed.
    OpenTyped,
    /// Setting the wave-out volume directly.
    WaveVolume,
    /// Playing after the wave-out volume was set.
    WavePlay,
    /// Closing after that playback.
    WaveClose(PlayResult),
    /// Trying the `i`-th volume command.
    SetVolume(usize),
    /// Playing after a volume command succeeded.
    Play,
    /// Playing at the default volume, every volume command having failed.
    PlayUnset,
    /// Closing before opening again with an explicit type.
    ReopenClose,
    /// Opening again with an explicit type.
    Reopen,
    /// Trying the `i`-th volume command after reopening.
    RetrySet(usize),
    /// Playing after reopening.
    RetryPlay,
    /// Closing at the end.
    FinalClose(PlayResult),
    /// Nothing more to send.
    Done(PlayResult),
}

/// What the player is to do next.
#[derive(Debug, Clone)]
pub enum MciStep {
    /// Send this MCI command and report whether it succeeded.
    Send(String),
    /// Set the wave-out volume to this MCI volume and report whether it worked.
    SetWaveVolume(u32),
    /// Stop, with this result.
    Finish(PlayResult),
}

/// Playback of one sound through MCI: open the file, set the volume, play,
/// close, with the fallbacks drivers need. The player sends each step and
/// reports its result; the plan says what comes next.
#[derive(Debug)]
pub struct MciPlayback {
    pub path: String,
    pub alias: String,
    pub mci_type: Option<&'static str>,
    pub volume_value: u32,
    pub set_cmds: Vec<String>,
    pub state: MciState,
    /// How many steps were asked for so far.
    pub steps: usize,
}

pub open spec fn is_wave(mci_type: Option<&'static str>) -> bool {
    match mci_type {
        Some(t) => t@ == "waveaudio"@,
        None => false,
    }
}

/// The state a playback moves to once the step `step` of state `s` reports
/// `ok`.
pub open spec fn next_state(s: MciState, ok: bool, mci_type: Option<&'static str>, step: usize) -> MciState {
    let after_open = if is_wave(mci_type) { MciState::WaveVolume } else { MciState::SetVolume(0) };
    let outcome = if ok { PlayResult::Played } else { PlayResult::FailedAt(step) };
    match s {
        MciState::Open => if ok {
            after_open
        } else if mci_type is Some {
            MciState::OpenTyped
        } else {
            MciState::Done(PlayResult::FailedAt(step))
        },
        MciState::OpenTyped => if ok { after_open } else { MciState::Done(PlayResult::FailedAt(step)) },
        MciState::WaveVolume => if ok { MciState::WavePlay } else { MciState::SetVolume(0) },
        MciState::WavePlay => MciState::WaveClose(outcome),
        MciState::WaveClose(r) => MciState::Done(r),
        MciState::SetVolume(i) => if ok {
            MciState::Play
        } else if i + 1 < 2 {
            MciState::SetVolume((i + 1) as usize)
        } else {
            MciState::PlayUnset
        },
        MciState::Play => MciState::FinalClose(outcome),
        MciState::PlayUnset => if ok {
            MciState::FinalClose(PlayResult::Played)
        } else if mci_type is Some {
            MciState::ReopenClose
        } else {
            MciState::FinalClose(PlayResult::FailedAt(step))
        },
        MciState::ReopenClose => MciState::Reopen,
        MciState::Reopen => if ok { MciState::RetrySet(0) } else { MciState::Done(PlayResult::FailedAt(step)) },
        MciState::RetrySet(i) => if ok || i + 1 >= 2 {
            MciState::RetryPlay
        } else {
            MciState::RetrySet((i + 1) as usize)
        },
        MciState::RetryPlay => MciState::FinalClose(outcome),
        MciState::FinalClose(r) => MciState::Done(r),
        MciState::Done(r) => MciState::Done(r),
    }
}

/// How many steps a playback in state `s` can still take, at most.
pub open spec fn steps_left(s: MciState) -> nat {
    match s {
        MciState::Done(_) => 0,
        MciState::FinalClose(_) | MciState::WaveClose(_) => 1,
        MciState::Play | MciState::RetryPlay | MciState::WavePlay => 2,
        MciState::RetrySet(i) => if i >= 1 { 3 } else { 4 },
        MciState::Reopen => 5,
        MciState::ReopenClose => 6,
        MciState::PlayUnset => 7,
        MciState::SetVolume(i) => if i >= 1 { 8 } else { 9 },
        MciState::WaveVolume => 10,
        MciState::OpenTyped => 11,
        MciState::Open => 12,
    }
}

impl MciPlayback {
    pub open spec fn wf(&self) -> bool {
        &&& self.set_cmds@.len() == 2
        &&& self.set_cmds@[0]@ == "setaudio "@ + self.alias@ + " output volume to "@ + decimal(
            self.volume_value as nat,
        )
        &&& self.set_cmds@[1]@ == "setaudio "@ + self.alias@ + " volume to "@ + decimal(
            self.volume_value as nat,
        )
        &&& match self.state {
            MciState::SetVolume(i) | MciState::RetrySet(i) => i < 2,
            MciState::OpenTyped | MciState::ReopenClose | MciState::Reopen => self.mci_type is Some,
            _ => true,
        }
        &&& match self.mci_type {
            Some(t) => mci_type_for(self.path@) == Some(t@),
            None => mci_type_for(self.path@) is None,
        }
        &&& 1 <= self.steps
        &&& self.steps + steps_left(self.state) <= 13
    }

    /// The step that state `s` stands for.
    pub open spec fn step_matches(&self, s: MciState, step: MciStep) -> bool {
        match (s, step) {
            (MciState::Done(r), MciStep::Finish(q)) => r == q,
            (MciState::WaveVolume, MciStep::SetWaveVolume(v)) => v == self.volume_value,
            (MciState::Open, MciStep::Send(c)) => c@ == "open \""@ + self.path@ + "\" alias "@ + self.alias@,
            (MciState::OpenTyped, MciStep::Send(c)) | (MciState::Reopen, MciStep::Send(c)) => c@ == "open \""@
                + self.path@ + "\" type "@ + self.mci_type.unwrap()@ + " alias "@ + self.alias@,
            (MciState::WavePlay, MciStep::Send(c)) | (MciState::Play, MciStep::Send(c)) | (
                MciState::PlayUnset,
                MciStep::Send(c),
            ) | (MciState::RetryPlay, MciStep::Send(c)) => c@ == "play "@ + self.alias@ + " from 0 wait"@,
            (MciState::WaveClose(_), MciStep::Send(c)) | (MciState::FinalClose(_), MciStep::Send(c)) | (
                MciState::ReopenClose,
                MciStep::Send(c),
            ) => c@ == "close "@ + self.alias@,
            (MciState::SetVolume(i), MciStep::Send(c)) | (MciState::RetrySet(i), MciStep::Send(c)) => c@
                == self.set_cmds@[i as int]@,
            _ => false,
        }
    }

    fn step_for(&self) -> (r: MciStep)
        requires
            self.wf(),
        ensures
            self.step_matches(self.state, r),
    {
        match self.state {
            MciState::Done(r) => MciStep::Finish(r),
            MciState::WaveVolume => MciStep::SetWaveVolume(self.volume_value),
            MciState::Open => MciStep::Send(build_open_cmd(self.path.as_str(), self.alias.as_str())),
            MciState::OpenTyped | MciState::Reopen => {
                let t = match self.mci_type {
                    Some(t) => t,
                    None => "",
                };
                MciStep::Send(build_open_cmd_with_type(self.path.as_str(), self.alias.as_str(), t))
            },
            MciState::WavePlay | MciState::Play | MciState::PlayUnset | MciState::RetryPlay => {
                MciStep::Send(build_play_cmd(self.alias.as_str()))
            },
            MciState::WaveClose(_) | MciState::FinalClose(_) | MciState::ReopenClose => {
                MciStep::Send(build_close_cmd(self.alias.as_str()))
            },
            MciState::SetVolume(i) | MciState::RetrySet(i) => {
                MciStep::Send(self.set_cmds[i].as_str().to_owned())
            },
        }
    }

    /// Starts a playback of `path` under `alias`; its first step opens the file.
    pub fn new(path: &str, alias: &str, volume_value: u32) -> (r: (Self, MciStep))
        ensures
            r.0.wf(),
            r.0.state == MciState::Open,
            r.0.steps == 1,
            r.0.path@ == path@,
            r.0.alias@ == alias@,
            r.0.volume_value == volume_value,
            r.0.step_matches(MciState::Open, r.1),
    {
        let playback = MciPlayback {
            path: path.to_owned(),
            alias: alias.to_owned(),
            mci_type: infer_mci_type(path),
            volume_value,
            set_cmds: build_set_cmd_variants(alias, volume_value),
            state: MciState::Open,
            steps: 1,
        };
        let step = playback.step_for();
        (playback, step)
    }

    /// Takes the result of the last step and says what to do next. Every
    /// call brings the end nearer: a playback takes at most 12 steps.
    pub fn advance(&mut self, ok: bool) -> (r: MciStep)
        requires
            old(self).wf(),
            !(old(self).state is Done),
        ensures
            final(self).wf(),
            final(self).state == next_state(old(self).state, ok, old(self).mci_type, (old(self).steps - 1) as usize),
            steps_left(final(self).state) < steps_left(old(self).state),
            final(self).path == old(self).path,
            final(self).alias == old(self).alias,
            final(self).volume_value == old(self).volume_value,
            final(self).step_matches(final(self).state, r),
            final(self).state is Done ==> final(self).steps == old(self).steps,
            !(final(self).state is Done) ==> final(self).steps == old(self).steps + 1,
    {
        let step: usize = self.steps - 1;
        let wave = match self.mci_type {
            Some(t) => crate::config::same_text(t, "waveaudio"),
            None => false,
        };
        let after_open = if wave { MciState::WaveVolume } else { MciState::SetVolume(0) };
        let outcome = if ok { PlayResult::Played } else { PlayResult::FailedAt(step) };
        let typed = self.mci_type.is_some();
        let next = match self.state {
            MciState::Open => if ok {
                after_open
            } else if typed {
                MciState::OpenTyped
            } else {
                MciState::Done(PlayResult::FailedAt(step))
            },
            MciState::OpenTyped => if ok { after_open } else { MciState::Done(PlayResult::FailedAt(step)) },
            MciState::WaveVolume => if ok { MciState::WavePlay } else { MciState::SetVolume(0) },
            MciState::WavePlay => MciState::WaveClose(outcome),
            MciState::WaveClose(r) => MciState::Done(r),
            MciState::SetVolume(i) => if ok {
                MciState::Play
            } else if i + 1 < 2 {
                MciState::SetVolume(i + 1)
            } else {
                MciState::PlayUnset
            },
            MciState::Play => MciState::FinalClose(outcome),
            MciState::PlayUnset => if ok {
                MciState::FinalClose(PlayResult::Played)
            } else if typed {
                MciState::ReopenClose
            } else {
                MciState::FinalClose(PlayResult::FailedAt(step))
            },
            MciState::ReopenClose => MciState::Reopen,
            MciState::Reopen => if ok { MciState::RetrySet(0) } else { MciState::Done(PlayResult::FailedAt(step)) },
            MciState::RetrySet(i) => if ok || i + 1 >= 2 {
                MciState::RetryPlay
            } else {
                MciState::RetrySet(i + 1)
            },
            MciState::RetryPlay => MciState::FinalClose(outcome),
            MciState::FinalClose(r) => MciState::Done(r),
            MciState::Done(r) => MciState::Done(r),
        };
        self.state = next;
        if !matches!(next, MciState::Done(_)) {
            self.steps = self.steps + 1;
        }
        proof {
            reveal_strlit("waveaudio");
        }
        self.step_for()
    }
}

} // verus!
