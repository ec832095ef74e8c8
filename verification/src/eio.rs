//! Log messages that tell of an I/O error of the audio output.

use vstd::prelude::*;

use crate::text;

verus! {

/// Whether a log message tells of an I/O error of the audio output.
pub open spec fn tells_of_eio(message: Seq<char>) -> bool {
    ||| text::contains_text(message, "snd_pcm_poll_descriptors_revents"@)
    ||| text::contains_text(message, "Unknown errno"@)
    ||| text::contains_text(message, "(-5)"@) && text::contains_text(message, "output stream"@)
    ||| text::contains_text(message, "EIO"@) && text::contains_text(message, "ALSA"@)
    ||| text::contains_text(message, "backend-specific"@) && text::contains_text(
        message,
        "output stream"@,
    )
}

/// Whether a log message tells of an I/O error of the audio output.
pub fn detects_eio(message: &str) -> (r: bool)
    ensures
        r == tells_of_eio(message@),
{
    text::str_contains(message, "snd_pcm_poll_descriptors_revents") || text::str_contains(
        message,
        "Unknown errno",
    ) || (text::str_contains(message, "(-5)") && text::str_contains(message, "output stream"))
        || (text::str_contains(message, "EIO") && text::str_contains(message, "ALSA")) || (
    text::str_contains(message, "backend-specific") && text::str_contains(message, "output stream"))
}

/// A message that quotes one that tells of an error tells of it too: it must
/// not be logged where it would be looked at again.
pub proof fn quoting_tells_too(before: Seq<char>, message: Seq<char>, behind: Seq<char>)
    requires
        tells_of_eio(message),
    ensures
        tells_of_eio(before + message + behind),
{
    assert forall|needle: Seq<char>| #[trigger]
        text::contains_text(message, needle) implies text::contains_text(
        before + message + behind,
        needle,
    ) by {
        text::contained_in_a_quotation(before, message, behind, needle);
    }
}

/// A message tells of an error wherever it names the failing call or an unknown
/// error number, and wherever it names an I/O error together with the output
/// that it befell.
pub proof fn io_errors_of_the_output_are_told(message: Seq<char>)
    ensures
        text::contains_text(message, "snd_pcm_poll_descriptors_revents"@) ==> tells_of_eio(message),
        text::contains_text(message, "Unknown errno"@) ==> tells_of_eio(message),
        text::contains_text(message, "(-5)"@) && text::contains_text(message, "output stream"@)
            ==> tells_of_eio(message),
        text::contains_text(message, "EIO"@) && text::contains_text(message, "ALSA"@)
            ==> tells_of_eio(message),
        text::contains_text(message, "backend-specific"@) && text::contains_text(
            message,
            "output stream"@,
        ) ==> tells_of_eio(message),
{
}

/// An I/O error of anything but the output, or an output without an error, is
/// not told of.
pub proof fn other_errors_are_not_told(message: Seq<char>)
    requires
        !text::contains_text(message, "snd_pcm_poll_descriptors_revents"@),
        !text::contains_text(message, "Unknown errno"@),
    ensures
        !text::contains_text(message, "output stream"@) && !text::contains_text(message, "ALSA"@)
            ==> !tells_of_eio(message),
        !text::contains_text(message, "(-5)"@) && !text::contains_text(message, "EIO"@)
            && !text::contains_text(message, "backend-specific"@) ==> !tells_of_eio(message),
        !text::contains_text(message, "output stream"@) && !text::contains_text(message, "EIO"@)
            ==> !tells_of_eio(message),
        !text::contains_text(message, "ALSA"@) && !text::contains_text(message, "(-5)"@)
            && !text::contains_text(message, "backend-specific"@) ==> !tells_of_eio(message),
{
}

} // verus!
