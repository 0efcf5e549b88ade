//! The configuration of one plugin of a chain.

use vstd::prelude::*;
use vstd::string::StringExecFns;

verus! {

/// One entry of a server's plugin list: the plugin's name, where its module
/// is if not under the plugin directory, and the plugin's own settings.
///
/// `C` is the type of the settings. The chain hands them on and never looks
/// inside.
#[derive(Debug, PartialEq, Eq)]
pub struct Plugin<C> {
    pub name: String,
    pub plugin_path: Option<String>,
    pub config: C,
}

/// Where the module of a plugin is found.
#[derive(Debug, PartialEq, Eq)]
pub enum PluginFile {
    /// A file of this name under the plugin directory.
    InPluginDir(String),
    /// The file at this path.
    At(String),
}

/// Where the module of a plugin is found, with text as sequences.
pub enum PluginFileView {
    InPluginDir(Seq<char>),
    At(Seq<char>),
}

impl View for PluginFile {
    type V = PluginFileView;

    open spec fn view(&self) -> PluginFileView {
        match self {
            PluginFile::InPluginDir(name) => PluginFileView::InPluginDir(name@),
            PluginFile::At(path) => PluginFileView::At(path@),
        }
    }
}

/// What every module's file name ends in.
pub open spec fn module_suffix() -> Seq<char> {
    ".wasm"@
}

impl<C> Plugin<C> {
    /// The module of a plugin without a path of its own is the file under the
    /// plugin directory that is named after the plugin; that of a plugin with
    /// a path is the file at that path. Either way the name ends in the
    /// module suffix, which the configuration leaves out.
    pub open spec fn spec_plugin_file(&self) -> PluginFileView {
        match self.plugin_path {
            None => PluginFileView::InPluginDir(self.name@ + module_suffix()),
            Some(path) => PluginFileView::At(path@ + module_suffix()),
        }
    }

    /// Where the module of this plugin is found.
    pub fn plugin_file(&self) -> (file: PluginFile)
        ensures
            file@ == self.spec_plugin_file(),
    {
        match &self.plugin_path {
            None => PluginFile::InPluginDir(self.name.clone().concat(".wasm")),
            Some(path) => PluginFile::At(path.clone().concat(".wasm")),
        }
    }
}

} // verus!
