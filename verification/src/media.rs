//! Where the media file is served from, and how it is prepared.

use vstd::prelude::*;
use vstd::string::StringExecFns;

verus! {

/// Port of the local file server.
pub const MEDIA_PORT: u16 = 1544;

/// The URL under which a host with the textual address `local_ip` serves the
/// media file.
pub open spec fn media_url_spec(local_ip: Seq<char>) -> Seq<char> {
    "http://"@ + local_ip + ":1544"@
}

/// The shell command that repacks the file `input` as `host_media.mp4`
/// without encoding it anew.
pub open spec fn transcode_command_spec(input: Seq<char>) -> Seq<char> {
    "ffmpeg -y -i "@ + input + " -c copy host_media.mp4"@
}

/// Builds the externally reachable URL of the media file from the address of
/// the local interface.
pub fn media_url(local_ip: &str) -> (url: String)
    ensures
        url@ == media_url_spec(local_ip@),
{
    let mut url = String::from_str("http://");
    url.append(local_ip);
    url.append(":1544");
    url
}

/// Builds the shell command that prepares the file `input` for hosting.
pub fn transcode_command(input: &str) -> (command: String)
    ensures
        command@ == transcode_command_spec(input@),
{
    let mut command = String::from_str("ffmpeg -y -i ");
    command.append(input);
    command.append(" -c copy host_media.mp4");
    command
}

} // verus!
