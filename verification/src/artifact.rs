use vstd::prelude::*;
use vstd::string::StrSliceExecFns;
use vstd::string::StringExecFns;
use crate::api::BuildPlatform;
use crate::error::Error;
use crate::text::{
    ascii_lowercase, contains_char, rfind_char, spec_ascii_lower, spec_contains_char,
    spec_last_char_at, str_eq,
};

verus! {

/// The last path component: everything after the final `/`, or the whole
/// path when it has none.
pub open spec fn spec_file_name(path: Seq<char>) -> Seq<char> {
    if spec_contains_char(path, '/') {
        path.subrange(spec_last_char_at(path, '/') + 1, path.len() as int)
    } else {
        path
    }
}

/// The extension of the last path component: everything after its final
/// `.`, or nothing when the component has no `.` past its first character.
pub open spec fn spec_extension(path: Seq<char>) -> Seq<char> {
    let name = spec_file_name(path);
    if spec_contains_char(name, '.') && spec_last_char_at(name, '.') > 0 {
        name.subrange(spec_last_char_at(name, '.') + 1, name.len() as int)
    } else {
        Seq::<char>::empty()
    }
}

/// The platform a lower-cased file extension implies, or nothing when the
/// extension names no single platform.
pub open spec fn spec_platform_for_ext(ext: Seq<char>) -> Option<BuildPlatform> {
    if ext == "exe"@ || ext == "msi"@ {
        Some(BuildPlatform::Windows)
    } else if ext == "dmg"@ || ext == "pkg"@ {
        Some(BuildPlatform::Macos)
    } else if ext == "ipa"@ {
        Some(BuildPlatform::IosNative)
    } else if ext == "apk"@ {
        Some(BuildPlatform::Android)
    } else if ext == "deb"@ || ext == "rpm"@ || ext == "appimage"@ {
        Some(BuildPlatform::Linux)
    } else {
        None
    }
}

/// `ext` is an archive extension, for which no platform is ever guessed.
pub open spec fn spec_is_archive_ext(ext: Seq<char>) -> bool {
    ext == "zip"@ || ext == "tar"@ || ext == "gz"@ || ext == "7z"@ || ext == "tgz"@
        || ext == "bz2"@
}

/// The message explaining why a lower-cased extension names no platform.
pub open spec fn spec_infer_error_text(ext: Seq<char>) -> Seq<char> {
    if ext == "app"@ {
        "Cannot infer platform for .app files. Please specify --platform explicitly (macos or ios-simulator)"@
    } else if spec_is_archive_ext(ext) {
        "Cannot infer platform for archive files (."@ + ext
            + "). Please specify --platform explicitly"@
    } else {
        "Cannot infer platform from file extension '."@ + ext
            + "'. Please specify --platform explicitly"@
    }
}

/// Infers the target platform from the file's extension, compared without
/// regard to ASCII case. An ambiguous extension (`.app`, archives) and an
/// unknown one are rejected explicitly, never guessed.
pub fn infer_platform(file_path: &str) -> (r: Result<BuildPlatform, Error>)
    ensures
        ({
            let ext = spec_ascii_lower(spec_extension(file_path@));
            match r {
                Ok(p) => spec_platform_for_ext(ext) == Some(p),
                Err(e) => spec_platform_for_ext(ext) is None && e is ConfigError
                    && e.spec_text() == spec_infer_error_text(ext),
            }
        }),
{
    let name: &str = match rfind_char(file_path, '/') {
        Some(i) => {
            let len = file_path.unicode_len();
            file_path.substring_char(i + 1, len)
        },
        None => file_path,
    };
    proof {
        assert(name@ == spec_file_name(file_path@));
    }
    let ext: &str = match rfind_char(name, '.') {
        Some(k) => {
            if k > 0 {
                let nlen = name.unicode_len();
                name.substring_char(k + 1, nlen)
            } else {
                ""
            }
        },
        None => "",
    };
    proof {
        reveal_strlit("");
        assert(""@ =~= Seq::<char>::empty());
        assert(ext@ == spec_extension(file_path@));
    }
    let low_string = ascii_lowercase(ext);
    let low = low_string.as_str();
    if str_eq(low, "exe") || str_eq(low, "msi") {
        Ok(BuildPlatform::Windows)
    } else if str_eq(low, "dmg") || str_eq(low, "pkg") {
        Ok(BuildPlatform::Macos)
    } else if str_eq(low, "ipa") {
        Ok(BuildPlatform::IosNative)
    } else if str_eq(low, "apk") {
        Ok(BuildPlatform::Android)
    } else if str_eq(low, "deb") || str_eq(low, "rpm") || str_eq(low, "appimage") {
        Ok(BuildPlatform::Linux)
    } else if str_eq(low, "app") {
        Err(Error::ConfigError(
            "Cannot infer platform for .app files. Please specify --platform explicitly (macos or ios-simulator)".to_owned(),
        ))
    } else if str_eq(low, "zip") || str_eq(low, "tar") || str_eq(low, "gz") || str_eq(low, "7z")
        || str_eq(low, "tgz") || str_eq(low, "bz2") {
        let mut m: String = String::new();
        m.append("Cannot infer platform for archive files (.");
        m.append(low);
        m.append("). Please specify --platform explicitly");
        Err(Error::ConfigError(m))
    } else {
        let mut m: String = String::new();
        m.append("Cannot infer platform from file extension '.");
        m.append(low);
        m.append("'. Please specify --platform explicitly");
        Err(Error::ConfigError(m))
    }
}

/// The build name for one file: the template itself for a single file,
/// the template suffixed with the file's name when several files share it.
pub fn generate_build_name(template: &str, file_path: &str, file_count: usize) -> (r: String)
    ensures
        ({
            let name0 = spec_file_name(file_path@);
            let name = if name0.len() == 0 {
                file_path@
            } else {
                name0
            };
            r@ == if file_count == 1 {
                template@
            } else {
                template@ + " - "@ + name
            }
        }),
{
    let name: &str = match rfind_char(file_path, '/') {
        Some(i) => {
            let len = file_path.unicode_len();
            let tail = file_path.substring_char(i + 1, len);
            if tail.unicode_len() == 0 {
                file_path
            } else {
                tail
            }
        },
        None => file_path,
    };
    if file_count == 1 {
        template.to_owned()
    } else {
        let mut m: String = String::new();
        m.append(template);
        m.append(" - ");
        m.append(name);
        m
    }
}

/// Whether a pattern holds any of the glob metacharacters `*`, `?`, `[`.
pub fn has_glob_chars(pattern: &str) -> (r: bool)
    ensures
        r == (spec_contains_char(pattern@, '*') || spec_contains_char(pattern@, '?')
            || spec_contains_char(pattern@, '[')),
{
    contains_char(pattern, '*') || contains_char(pattern, '?') || contains_char(pattern, '[')
}

} // verus!
