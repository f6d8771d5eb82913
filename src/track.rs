use vstd::prelude::*;

verus! {

/// One playable file of the catalog.
#[derive(Debug, Clone)]
pub struct Music {
    /// Display name: the file name without its extension.
    pub name: String,
    /// Where the audio is read from.
    pub path: String,
    /// Length of the track in milliseconds.
    pub duration_ms: u64,
}

/// The one file extension whose entries the catalog keeps.
pub open spec fn supported_extension_spec(ext: Seq<char>) -> bool {
    ext == "mp3"@
}

/// Whether a directory entry with this extension belongs in the catalog.
pub fn is_supported_extension(ext: &str) -> (r: bool)
    ensures
        r == supported_extension_spec(ext@),
{
    proof {
        reveal_strlit("mp3");
    }
    let n = ext.unicode_len();
    if n != 3 {
        assert(ext@.len() != "mp3"@.len());
        return false;
    }
    let ok = ext.get_char(0) == 'm' && ext.get_char(1) == 'p' && ext.get_char(2) == '3';
    if !ok {
        assert(ext@ != "mp3"@) by {
            if ext@ == "mp3"@ {
                assert(ext@[0] == 'm' && ext@[1] == 'p' && ext@[2] == '3');
            }
        }
    } else {
        assert(ext@ =~= "mp3"@);
    }
    ok
}

} // verus!
