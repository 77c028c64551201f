use vstd::prelude::*;

verus! {

/// The entry of the manifest that was absent or of the wrong kind.
#[derive(Debug, Clone, Copy, PartialEq, Eq, Structural)]
pub enum ManifestField {
    /// The `package` table.
    Package,
    /// `package.name`.
    Name,
    /// `package.description`.
    Description,
    /// `package.version`.
    Version,
}

/// Every way a run of the pipeline can fail. Each one ends the run.
#[derive(Debug, Clone)]
pub enum BuildError {
    /// The manifest file could not be read.
    ManifestUnreadable(String),
    /// The manifest is not valid TOML.
    ManifestMalformed(String),
    /// The manifest lacks an entry, or holds it with the wrong kind.
    ManifestIncomplete(ManifestField),
    /// The SQL definition file does not tokenize.
    ScanFailed(String),
    /// The versioned SQL script or the descriptor could not be written.
    MetadataWriteFailed(String),
    /// The generated registration source could not be written.
    SourceWriteFailed(String),
    /// The host's configuration query for this directory failed, or printed no text.
    HostConfigUnavailable(HostQuery),
    /// The compiler could not be run, or exited with failure; what it printed
    /// on its error stream, unchanged.
    CompileFailed(Vec<u8>),
    /// The linker could not be run, or exited with failure; what it printed on
    /// its error stream, unchanged.
    LinkFailed(Vec<u8>),
    /// Copying the artifact named here into the host's directories failed.
    DeployFailed(Artifact, String),
}

/// The directories of the host installation that the pipeline asks for.
#[derive(Debug, Clone, Copy, PartialEq, Eq, Structural)]
pub enum HostQuery {
    /// The server's header directory, for compiling.
    IncludeDir,
    /// The directory of loadable modules, for the shared library.
    ModuleDir,
    /// The shared-data directory, under which extensions' scripts live.
    ShareDir,
}

/// The three files that deployment copies.
#[derive(Debug, Clone, Copy, PartialEq, Eq, Structural)]
pub enum Artifact {
    SharedLibrary,
    SqlScript,
    Descriptor,
}

} // verus!
