//! Which files of an asset folder are loaded, and under which name: PNG
//! files become images and WAV files sounds, named by the file name without
//! its extension, the way `std::path::Path` splits a file name.

use vstd::prelude::*;

verus! {

/// What an asset file holds.
#[derive(Clone, Copy, Debug, PartialEq, Eq)]
pub enum AssetKind {
    Image,
    Sound,
}

/// The index of the last `c` in `s` before `i`, or -1.
pub open spec fn last_index_before(s: Seq<char>, c: char, i: int) -> int
    decreases i,
{
    if i <= 0 || i > s.len() {
        -1
    } else if s[i - 1] == c {
        i - 1
    } else {
        last_index_before(s, c, i - 1)
    }
}

/// The extension and stem of a file name: split at the last dot, unless
/// there is no dot or the only dot starts the name (a hidden file), in which
/// case there is no extension.
pub open spec fn split_extension(f: Seq<char>) -> Option<(Seq<char>, Seq<char>)> {
    let d = last_index_before(f, '.', f.len() as int);
    if d <= 0 {
        None
    } else {
        Some((f.subrange(0, d), f.subrange(d + 1, f.len() as int)))
    }
}

/// Which asset a file name names: `(kind, stem)` for `.png` and `.wav`
/// files, nothing otherwise.
pub open spec fn asset_of(f: Seq<char>) -> Option<(AssetKind, Seq<char>)> {
    match split_extension(f) {
        Some((stem, ext)) => if ext == seq!['p', 'n', 'g'] {
            Some((AssetKind::Image, stem))
        } else if ext == seq!['w', 'a', 'v'] {
            Some((AssetKind::Sound, stem))
        } else {
            None
        },
        None => None,
    }
}

proof fn lemma_last_index_range(s: Seq<char>, c: char, i: int)
    requires
        0 <= i <= s.len(),
    ensures
        -1 <= last_index_before(s, c, i) < i,
        last_index_before(s, c, i) >= 0 ==> s[last_index_before(s, c, i)] == c,
    decreases i,
{
    if i > 0 && s[i - 1] != c {
        lemma_last_index_range(s, c, i - 1);
    }
}

/// Which asset the file name `f` names (see `asset_of`).
pub fn classify_asset(f: &Vec<char>) -> (r: Option<(AssetKind, Vec<char>)>)
    ensures
        match r {
            Some((k, stem)) => asset_of(f@) == Some((k, stem@)),
            None => asset_of(f@) is None,
        },
{
    let mut i = f.len();
    while i > 0 && f[i - 1] != '.'
        invariant
            0 <= i <= f.len(),
            last_index_before(f@, '.', f.len() as int) == last_index_before(f@, '.', i as int),
        decreases i,
    {
        i -= 1;
    }
    proof {
        lemma_last_index_range(f@, '.', f.len() as int);
    }
    if i <= 1 {
        return None;
    }
    let d = i - 1;
    assert(last_index_before(f@, '.', f.len() as int) == d);
    let mut stem: Vec<char> = Vec::new();
    let mut j: usize = 0;
    while j < d
        invariant
            0 <= j <= d,
            d < f.len(),
            stem@ == f@.subrange(0, j as int),
        decreases d - j,
    {
        stem.push(f[j]);
        j += 1;
        assert(stem@ =~= f@.subrange(0, j as int));
    }
    let ext_len = f.len() - d - 1;
    let png = ext_len == 3 && f[d + 1] == 'p' && f[d + 2] == 'n' && f[d + 3] == 'g';
    let wav = ext_len == 3 && f[d + 1] == 'w' && f[d + 2] == 'a' && f[d + 3] == 'v';
    let ghost ext = f@.subrange(d + 1, f.len() as int);
    assert(png == (ext == seq!['p', 'n', 'g'])) by {
        if png {
            assert(ext =~= seq!['p', 'n', 'g']);
        }
        if ext == seq!['p', 'n', 'g'] {
            assert(ext.len() == 3);
            assert(ext[0] == 'p' && ext[1] == 'n' && ext[2] == 'g');
        }
    }
    assert(wav == (ext == seq!['w', 'a', 'v'])) by {
        if wav {
            assert(ext =~= seq!['w', 'a', 'v']);
        }
        if ext == seq!['w', 'a', 'v'] {
            assert(ext.len() == 3);
            assert(ext[0] == 'w' && ext[1] == 'a' && ext[2] == 'v');
        }
    }
    if png {
        Some((AssetKind::Image, stem))
    } else if wav {
        Some((AssetKind::Sound, stem))
    } else {
        None
    }
}

} // verus!
