use vstd::prelude::*;

verus! {

/// The container formats that the tag prober tells apart.
#[derive(Clone, Copy, Debug, PartialEq, Eq, Structural)]
pub enum ContainerKind {
    Aac,
    Aiff,
    Ape,
    Flac,
    Mp3,
    Mp4,
    Mpc,
    Opus,
    Ogg,
    Spx,
    Wav,
    Wv,
    Unknown,
}

/// The short lower-case name shown for each container kind.
pub open spec fn container_name(kind: ContainerKind) -> Seq<char> {
    match kind {
        ContainerKind::Aac => seq!['a', 'a', 'c'],
        ContainerKind::Aiff => seq!['a', 'i', 'f', 'f'],
        ContainerKind::Ape => seq!['a', 'p', 'e'],
        ContainerKind::Flac => seq!['f', 'l', 'a', 'c'],
        ContainerKind::Mp3 => seq!['m', 'p', '3'],
        ContainerKind::Mp4 => seq!['m', 'p', '4'],
        ContainerKind::Mpc => seq!['m', 'p', 'c'],
        ContainerKind::Opus => seq!['o', 'p', 'u', 's'],
        ContainerKind::Ogg => seq!['o', 'g', 'g'],
        ContainerKind::Spx => seq!['s', 'p', 'x'],
        ContainerKind::Wav => seq!['w', 'a', 'v'],
        ContainerKind::Wv => seq!['w', 'v'],
        ContainerKind::Unknown => seq!['u', 'n', 'k', 'n', 'o', 'w', 'n'],
    }
}

/// The display name of a container kind.
pub fn file_type_to_str(kind: ContainerKind) -> (r: String)
    ensures
        r@ == container_name(kind),
{
    let s: &str = match kind {
        ContainerKind::Aac => "aac",
        ContainerKind::Aiff => "aiff",
        ContainerKind::Ape => "ape",
        ContainerKind::Flac => "flac",
        ContainerKind::Mp3 => "mp3",
        ContainerKind::Mp4 => "mp4",
        ContainerKind::Mpc => "mpc",
        ContainerKind::Opus => "opus",
        ContainerKind::Ogg => "ogg",
        ContainerKind::Spx => "spx",
        ContainerKind::Wav => "wav",
        ContainerKind::Wv => "wv",
        ContainerKind::Unknown => "unknown",
    };
    proof {
        reveal_strlit("aac");
        reveal_strlit("aiff");
        reveal_strlit("ape");
        reveal_strlit("flac");
        reveal_strlit("mp3");
        reveal_strlit("mp4");
        reveal_strlit("mpc");
        reveal_strlit("opus");
        reveal_strlit("ogg");
        reveal_strlit("spx");
        reveal_strlit("wav");
        reveal_strlit("wv");
        reveal_strlit("unknown");
    }
    String::from_str(s)
}

/// What one probe of a loaded file found: container, bitrate and duration, and the
/// primary tag's title, artist and first embedded picture. Every field but the
/// container may be missing.
#[derive(Clone, Debug)]
pub struct MetadataSnapshot {
    pub container_kind: ContainerKind,
    pub bitrate_kbps: Option<u32>,
    pub total_duration_ms: Option<u64>,
    pub title: Option<String>,
    pub artist: Option<String>,
    pub artwork: Option<Vec<u8>>,
}

impl MetadataSnapshot {
    pub fn new(
        container_kind: ContainerKind,
        bitrate_kbps: Option<u32>,
        total_duration_ms: Option<u64>,
        title: Option<String>,
        artist: Option<String>,
        artwork: Option<Vec<u8>>,
    ) -> (r: MetadataSnapshot)
        ensures
            r.container_kind == container_kind,
            r.bitrate_kbps == bitrate_kbps,
            r.total_duration_ms == total_duration_ms,
            r.title == title,
            r.artist == artist,
            r.artwork == artwork,
    {
        MetadataSnapshot { container_kind, bitrate_kbps, total_duration_ms, title, artist, artwork }
    }
}

} // verus!
