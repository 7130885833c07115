//! The build-time configuration of the MacroQuest installation a plugin is
//! compiled against: the EverQuest version stamp, the installation
//! directory, and the build profile and architecture, with the include and
//! library directories a build derives from them.
//!
//! The four values travel as one newline-separated configuration text that
//! the build step writes out; the glue layer reads that text at build time
//! and hands it here. Directory joins use the host's backslash separator:
//! the host is a Windows process.

use vstd::prelude::*;
use vstd::string::{StringExecFns, StringSliceAdditionalSpecFns};
use vstd::utf8::decode_utf8;

use crate::text::{spec_split_bytes, split_lines};

verus! {

/// The targeted MacroQuest installation, as recorded at build time.
#[derive(Clone, Debug)]
pub struct BuildConfig {
    /// The EverQuest version stamp the installation was built for.
    pub eq_version: String,
    /// The MacroQuest installation directory.
    pub mq_dir: String,
    /// The build profile of the installation.
    pub mq_profile: String,
    /// The processor architecture of the installation.
    pub mq_arch: String,
}

impl BuildConfig {
    /// Parse the recorded configuration text: the version stamp, the
    /// installation directory, the profile and the architecture, one per
    /// line. Succeeds exactly when the text holds at least four lines.
    pub fn load(config: &str) -> (r: Option<BuildConfig>)
        ensures
            ({
                let parts = spec_split_bytes(config.spec_bytes(), 10);
                &&& r is Some <==> parts.len() >= 4
                &&& (r matches Some(c) ==> c.eq_version@ == decode_utf8(parts[0]) && c.mq_dir@
                    == decode_utf8(parts[1]) && c.mq_profile@ == decode_utf8(parts[2])
                    && c.mq_arch@ == decode_utf8(parts[3]))
            }),
    {
        let fields = split_lines(config);
        if fields.len() < 4 {
            return None;
        }
        Some(
            BuildConfig {
                eq_version: fields[0].clone(),
                mq_dir: fields[1].clone(),
                mq_profile: fields[2].clone(),
                mq_arch: fields[3].clone(),
            },
        )
    }

    /// The EverQuest version stamp the installation was built for.
    pub fn eq_version(&self) -> (version: &str)
        ensures
            version@ == self.eq_version@,
    {
        self.eq_version.as_str()
    }

    /// The include directories of the installation, each under the
    /// installation directory.
    pub fn include_dirs(&self) -> (dirs: Vec<String>)
        ensures
            dirs.deep_view() == seq![
                self.mq_dir@ + "\\include"@,
                self.mq_dir@ + "\\src"@,
                self.mq_dir@ + "\\contrib"@,
                self.mq_dir@ + "\\contrib\\imgui"@,
                self.mq_dir@ + "\\contrib\\vcpkg\\installed\\x64-windows-static\\include"@,
                self.mq_dir@ + "\\contrib\\vcpkg\\installed\\x64-windows\\include"@,
            ],
    {
        let mut dirs: Vec<String> = Vec::new();
        let mut dir = self.mq_dir.clone();
        dir.append("\\include");
        dirs.push(dir);
        let mut dir = self.mq_dir.clone();
        dir.append("\\src");
        dirs.push(dir);
        let mut dir = self.mq_dir.clone();
        dir.append("\\contrib");
        dirs.push(dir);
        let mut dir = self.mq_dir.clone();
        dir.append("\\contrib\\imgui");
        dirs.push(dir);
        let mut dir = self.mq_dir.clone();
        dir.append("\\contrib\\vcpkg\\installed\\x64-windows-static\\include");
        dirs.push(dir);
        let mut dir = self.mq_dir.clone();
        dir.append("\\contrib\\vcpkg\\installed\\x64-windows\\include");
        dirs.push(dir);
        proof {
            assert(dirs.deep_view() =~~= seq![
                self.mq_dir@ + "\\include"@,
                self.mq_dir@ + "\\src"@,
                self.mq_dir@ + "\\contrib"@,
                self.mq_dir@ + "\\contrib\\imgui"@,
                self.mq_dir@ + "\\contrib\\vcpkg\\installed\\x64-windows-static\\include"@,
                self.mq_dir@ + "\\contrib\\vcpkg\\installed\\x64-windows\\include"@,
            ]);
        }
        dirs
    }

    /// The library directories of the installation: the build output
    /// directories for the recorded profile and architecture, and the two
    /// vcpkg library directories for the architecture.
    pub fn lib_dirs(&self) -> (dirs: Vec<String>)
        ensures
            dirs.deep_view() == seq![
                self.mq_dir@ + "\\build/bin\\"@ + self.mq_profile@,
                self.mq_dir@ + "\\build/lib\\"@ + self.mq_arch@ + "\\"@ + self.mq_profile@,
                self.mq_dir@ + "\\contrib/vcpkg/installed\\"@ + self.mq_arch@
                    + "-windows-static\\lib"@,
                self.mq_dir@ + "\\contrib/vcpkg/installed\\"@ + self.mq_arch@ + "-windows\\lib"@,
            ],
    {
        let mut dirs: Vec<String> = Vec::new();
        let mut dir = self.mq_dir.clone();
        dir.append("\\build/bin\\");
        dir.append(self.mq_profile.as_str());
        dirs.push(dir);
        let mut dir = self.mq_dir.clone();
        dir.append("\\build/lib\\");
        dir.append(self.mq_arch.as_str());
        dir.append("\\");
        dir.append(self.mq_profile.as_str());
        dirs.push(dir);
        let mut dir = self.mq_dir.clone();
        dir.append("\\contrib/vcpkg/installed\\");
        dir.append(self.mq_arch.as_str());
        dir.append("-windows-static\\lib");
        dirs.push(dir);
        let mut dir = self.mq_dir.clone();
        dir.append("\\contrib/vcpkg/installed\\");
        dir.append(self.mq_arch.as_str());
        dir.append("-windows\\lib");
        dirs.push(dir);
        proof {
            assert(dirs.deep_view() =~~= seq![
                self.mq_dir@ + "\\build/bin\\"@ + self.mq_profile@,
                self.mq_dir@ + "\\build/lib\\"@ + self.mq_arch@ + "\\"@ + self.mq_profile@,
                self.mq_dir@ + "\\contrib/vcpkg/installed\\"@ + self.mq_arch@
                    + "-windows-static\\lib"@,
                self.mq_dir@ + "\\contrib/vcpkg/installed\\"@ + self.mq_arch@ + "-windows\\lib"@,
            ]);
        }
        dirs
    }
}

} // verus!
