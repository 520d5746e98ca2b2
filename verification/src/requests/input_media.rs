//! Media descriptors for album (media-group) requests.

use vstd::prelude::*;

verus! {

#[derive(Debug, Clone, PartialEq)]
pub struct InputMediaPhoto {}

#[derive(Debug, Clone, PartialEq)]
pub struct InputMediaVideo {}

#[derive(Debug, Clone, PartialEq)]
pub struct InputMediaAnimation {}

#[derive(Debug, Clone, PartialEq)]
pub struct InputMediaDocument {}

#[derive(Debug, Clone, PartialEq)]
pub struct InputMediaAudio {}

#[derive(Debug, Clone, PartialEq)]
pub enum InputMedia {
    Animation(InputMediaAnimation),
    Document(InputMediaDocument),
    Audio(InputMediaAudio),
    Photo(InputMediaPhoto),
    Video(InputMediaVideo),
}

} // verus!
