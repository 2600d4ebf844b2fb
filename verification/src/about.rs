use vstd::prelude::*;
use vstd::string::StringExecFns;

verus! {

/// The "about" dialog: a fixed title, product heading and version
/// line. The windowing layer lays the text out; the content lives
/// here.
pub struct AboutWindow;

impl AboutWindow {
    pub fn new() -> (w: AboutWindow)
        ensures
            w == AboutWindow,
    {
        AboutWindow
    }

    pub fn title(&self) -> (s: String)
        ensures
            s@ == "About"@,
    {
        String::from_str("About")
    }

    pub fn heading(&self) -> (s: String)
        ensures
            s@ == "esim workbench"@,
    {
        String::from_str("esim workbench")
    }

    pub fn version_line(&self) -> (s: String)
        ensures
            s@ == "Version 0.1.0"@,
    {
        String::from_str("Version 0.1.0")
    }
}

} // verus!
