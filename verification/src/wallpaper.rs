//! The invocation handed to the external wallpaper tool.

use vstd::prelude::*;
use vstd::string::StringExecFns;

verus! {

/// One spawn of the external tool: the program name and its argument
/// list, in order. The caller runs it and waits; the library only decides
/// what it says.
pub struct WallpaperCommand {
    pub program: String,
    pub args: Vec<String>,
}

/// The full path of a directory entry: the directory, a `/`, and the name.
pub fn join_path(dir: &String, name: &String) -> (p: String)
    ensures
        p@ == dir@ + "/"@ + name@,
{
    let mut p = dir.clone();
    p.append("/");
    p.append(name.as_str());
    p
}

/// Builds the `feh` call that fills the background with the image:
/// `feh --bg-fill <image-path>`.
pub fn wallpaper_command(image_path: &String) -> (c: WallpaperCommand)
    ensures
        c.program@ == "feh"@,
        c.args@.len() == 2,
        c.args@[0]@ == "--bg-fill"@,
        c.args@[1]@ == image_path@,
{
    let mut args: Vec<String> = Vec::new();
    args.push(String::from_str("--bg-fill"));
    args.push(image_path.clone());
    WallpaperCommand { program: String::from_str("feh"), args }
}

} // verus!
