//! Requests to play a sound effect, picked at random from a list.

use crate::random::{select_uniform, RandomSource};
use vstd::prelude::*;

verus! {

/// A request to play one of the listed sound files.
pub struct PlaySoundEvent(pub Vec<String>);

impl PlaySoundEvent {
    /// A request for exactly this sound file.
    pub fn sound(sound_file: String) -> (r: PlaySoundEvent)
        ensures
            r.0@ == seq![sound_file],
    {
        let mut files: Vec<String> = Vec::new();
        files.push(sound_file);
        PlaySoundEvent(files)
    }

    /// A request for one of these sound files, picked when it is played.
    pub fn random_sound(sound_files: Vec<String>) -> (r: PlaySoundEvent)
        ensures
            r.0@ == sound_files@,
    {
        PlaySoundEvent(sound_files)
    }

    /// The file to play: one of the listed files, each with the same chance;
    /// nothing from an empty list.
    pub fn choose_file(&self, rng: &mut RandomSource) -> (r: Option<&String>)
        ensures
            r is None <==> self.0@.len() == 0,
            r matches Some(f) ==> exists|i: int| 0 <= i < self.0@.len() && *f == self.0@[i],
            self.0@.len() == 1 ==> r == Some(&self.0@[0]),
    {
        select_uniform(self.0.as_slice(), rng)
    }
}

} // verus!
