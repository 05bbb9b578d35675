//! The engine configuration record and the packed application version.
use crate::text::{decimal, decimal_chars};
use vstd::prelude::*;
use vstd::string::*;

verus! {

/// Settings of the application, as stored in its options file.
pub struct Config {
    pub app_name: String,
    pub app_version: u32,
    pub horizontal_fov: u32,
    pub render_width: u32,
    pub render_height: u32,
    pub window_width: u32,
    pub window_height: u32,
}

/// The packed form of a version: the patch in bits 0..12, the minor in bits 12..22 and
/// the major in bits 22..32 (each field within its width).
pub open spec fn packed_version(major: u32, minor: u32, patch: u32) -> nat {
    major as nat * 0x400000 + minor as nat * 0x1000 + patch as nat
}

/// The major number held in a packed version.
pub open spec fn version_major(v: u32) -> nat {
    (v as nat / 0x400000) % 0x400
}

/// The minor number held in a packed version.
pub open spec fn version_minor(v: u32) -> nat {
    (v as nat / 0x1000) % 0x400
}

/// The patch number held in a packed version.
pub open spec fn version_patch(v: u32) -> nat {
    v as nat % 0x1000
}

/// The text of a packed version: `v<major>.<minor>.<patch>` in decimal.
pub open spec fn version_text(v: u32) -> Seq<char> {
    "v"@ + decimal_chars(version_major(v)) + "."@ + decimal_chars(version_minor(v)) + "."@ + decimal_chars(
        version_patch(v),
    )
}

/// The name of the application.
pub open spec fn app_name_text() -> Seq<char> {
    "ProjectPeril"@
}

/// The configuration written when no options file exists.
pub open spec fn is_default_config(c: Config, name: Seq<char>, version: u32) -> bool {
    &&& c.app_name@ == name
    &&& c.app_version == version
    &&& c.horizontal_fov == 90
    &&& c.render_width == 480
    &&& c.render_height == 320
    &&& c.window_width == 480
    &&& c.window_height == 320
}

/// Whether the settled configuration differs from what the options file held: always
/// when there was no file, otherwise when the stored name or version is not the
/// application's.
pub open spec fn resolve_needs_save(loaded: Option<Config>, name: Seq<char>, version: u32) -> bool {
    match loaded {
        None => true,
        Some(c) => c.app_name@ != name || c.app_version != version,
    }
}

impl Config {
    /// The name of the application.
    pub fn app_name() -> (s: String)
        ensures
            s@ == app_name_text(),
    {
        String::from_str("ProjectPeril")
    }

    /// Packs a major (10 bits), minor (10 bits) and patch (12 bits) version number
    /// into one 32 bit number, the major highest.
    pub fn make_version(major: u32, minor: u32, patch: u32) -> (r: u32)
        requires
            major <= 0x3FF,
            minor <= 0x3FF,
            patch <= 0xFFF,
        ensures
            r == packed_version(major, minor, patch),
    {
        let mut ret: u32 = 0;
        ret = ret | (patch & 0xFFF);
        ret = ret | ((minor & 0x3FF) << 12u32);
        ret = ret | ((major & 0x3FF) << 22u32);
        assert(ret == major * 0x400000 + minor * 0x1000 + patch) by (bit_vector)
            requires
                major <= 0x3FF,
                minor <= 0x3FF,
                patch <= 0xFFF,
                ret == (0u32 | (patch & 0xFFF)) | ((minor & 0x3FF) << 12u32) | ((major & 0x3FF) << 22u32),
        ;
        ret
    }

    /// The application version as text, `v<major>.<minor>.<patch>`.
    pub fn version_to_string(&self) -> (s: String)
        ensures
            s@ == version_text(self.app_version),
    {
        let v = self.app_version;
        let major = (v >> 22u32) & 0x3FF;
        let minor = (v >> 12u32) & 0x3FF;
        let patch = v & 0xFFF;
        assert(major == (v / 0x400000) % 0x400 && minor == (v / 0x1000) % 0x400 && patch == v % 0x1000)
            by (bit_vector)
            requires
                major == (v >> 22u32) & 0x3FF,
                minor == (v >> 12u32) & 0x3FF,
                patch == v & 0xFFF,
        ;
        let mut s = String::from_str("v");
        s.append(decimal(major).as_str());
        s.append(".");
        s.append(decimal(minor).as_str());
        s.append(".");
        s.append(decimal(patch).as_str());
        proof {
            reveal_strlit("v");
            reveal_strlit(".");
        }
        s
    }

    /// The configuration used when no options file exists.
    pub fn default_config(app_name: String, app_version: u32) -> (c: Config)
        ensures
            is_default_config(c, app_name@, app_version),
    {
        Config {
            app_name,
            app_version,
            horizontal_fov: 90,
            render_width: 480,
            render_height: 320,
            window_width: 480,
            window_height: 320,
        }
    }

    /// Settles the configuration to use from what the options file held (`None` when
    /// there is no such file) and the application's own name and version. A stored
    /// configuration keeps its settings but takes the application's name and version;
    /// without one, the defaults are used. The flag tells whether the result differs
    /// from what is stored, so that it must be written back.
    pub fn resolve(loaded: Option<Config>, correct_name: String, correct_version: u32) -> (r: (Config, bool))
        ensures
            r.0.app_name@ == correct_name@,
            r.0.app_version == correct_version,
            r.1 == resolve_needs_save(loaded, correct_name@, correct_version),
            match loaded {
                None => is_default_config(r.0, correct_name@, correct_version),
                Some(c) => {
                    &&& r.0.horizontal_fov == c.horizontal_fov
                    &&& r.0.render_width == c.render_width
                    &&& r.0.render_height == c.render_height
                    &&& r.0.window_width == c.window_width
                    &&& r.0.window_height == c.window_height
                },
            },
    {
        match loaded {
            None => (Config::default_config(correct_name, correct_version), true),
            Some(mut cfg) => {
                let mut needs_save = false;
                if !(cfg.app_name == correct_name) {
                    cfg.app_name = correct_name;
                    needs_save = true;
                }
                if cfg.app_version != correct_version {
                    cfg.app_version = correct_version;
                    needs_save = true;
                }
                (cfg, needs_save)
            },
        }
    }
}

/// Configuration law: a configuration that has been settled needs no further saving
/// when it is settled again with the same name and version.
pub proof fn law_resolve_settles(name: Seq<char>, version: u32, settled: Config)
    requires
        settled.app_name@ == name,
        settled.app_version == version,
    ensures
        !resolve_needs_save(Some(settled), name, version),
        resolve_needs_save(None, name, version),
{
}

/// Version law: a packed version gives back its major, minor and patch numbers, for
/// every version within the field widths (10, 10 and 12 bits).
pub proof fn law_version_round_trip(major: u32, minor: u32, patch: u32)
    requires
        major <= 0x3FF,
        minor <= 0x3FF,
        patch <= 0xFFF,
    ensures
        packed_version(major, minor, patch) <= u32::MAX,
        version_major(packed_version(major, minor, patch) as u32) == major,
        version_minor(packed_version(major, minor, patch) as u32) == minor,
        version_patch(packed_version(major, minor, patch) as u32) == patch,
{
    let p = packed_version(major, minor, patch);
    assert(p <= u32::MAX) by (nonlinear_arith)
        requires
            p == major * 0x400000 + minor * 0x1000 + patch,
            major <= 0x3FF,
            minor <= 0x3FF,
            patch <= 0xFFF,
    ;
    let v = p as u32;
    assert(v as nat == p);
    assert(v / 0x400000 == major) by (nonlinear_arith)
        requires
            v == major * 0x400000 + minor * 0x1000 + patch,
            minor <= 0x3FF,
            patch <= 0xFFF,
    ;
    assert(major % 0x400 == major);
    assert(v / 0x1000 == major * 0x400 + minor) by (nonlinear_arith)
        requires
            v == major * 0x400000 + minor * 0x1000 + patch,
            patch <= 0xFFF,
    ;
    assert((major * 0x400 + minor) % 0x400 == minor) by (nonlinear_arith)
        requires
            minor <= 0x3FF,
    ;
    assert(v % 0x1000 == patch) by (nonlinear_arith)
        requires
            v == major * 0x400000 + minor * 0x1000 + patch,
            patch <= 0xFFF,
    ;
}

/// Version law: two different versions within the field widths pack to different
/// numbers.
pub proof fn law_version_packing_injective(major1: u32, minor1: u32, patch1: u32, major2: u32, minor2: u32, patch2: u32)
    requires
        major1 <= 0x3FF,
        minor1 <= 0x3FF,
        patch1 <= 0xFFF,
        major2 <= 0x3FF,
        minor2 <= 0x3FF,
        patch2 <= 0xFFF,
        (major1, minor1, patch1) != (major2, minor2, patch2),
    ensures
        packed_version(major1, minor1, patch1) != packed_version(major2, minor2, patch2),
{
    law_version_round_trip(major1, minor1, patch1);
    law_version_round_trip(major2, minor2, patch2);
}

} // verus!
