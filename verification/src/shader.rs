//! The shader source cache and the shader registry.
//!
//! A `Shader` pairs a source path with the bytecode of its last successful
//! compile and recompiles lazily when the cache is missing or stale. The
//! filesystem, the wall clock and the source-to-bytecode compiler are
//! external collaborators reached through the `SourceFiles`, `Clock` and
//! `SpirvCompiler` ports; nothing is assumed of their answers, so every
//! contract here speaks of what the cache does with whatever came back.

use vstd::prelude::*;

verus! {

/// Which programmable stage a shader source feeds.
#[derive(Debug, PartialEq, Eq, Structural, Clone, Copy)]
pub enum ShaderType {
    Vertex,
    Fragment,
}

/// A filesystem access failure, as the source store reports it.
#[derive(Debug, PartialEq, Eq, Structural, Clone, Copy)]
pub enum IoError {
    NotFound,
    PermissionDenied,
    Other,
}

/// The compiler rejected a shader source; its diagnostic text is kept
/// verbatim.
#[derive(Debug, PartialEq, Eq, Clone)]
pub struct CompileError {
    pub message: String,
}

/// Why no bytecode could be produced: the file could not be read, or the
/// source did not compile.
#[derive(Debug, PartialEq, Eq, Clone)]
pub enum ShaderError {
    Io(IoError),
    Compile(CompileError),
}

/// The store of shader sources: reads source text and reports modification
/// times in milliseconds. Reading a disk is outside what can be verified,
/// so the render-loop driver supplies an implementation and nothing is
/// assumed of its answers.
pub trait SourceFiles {
    fn read_source(&mut self, path: &String) -> Result<String, IoError>;

    fn modified_ms(&mut self, path: &String) -> Result<u64, IoError>;
}

/// A wall clock in milliseconds. Nothing is assumed of its readings.
pub trait Clock {
    fn now_ms(&mut self) -> u64;
}

/// The source-to-bytecode compiler, an external collaborator: it takes raw
/// source text and the stage it targets, and answers bytecode or a
/// diagnostic. Nothing is assumed of its answers.
pub trait SpirvCompiler {
    fn compile(&mut self, source: &String, kind: &ShaderType) -> Result<Vec<u8>, CompileError>;
}

/// How long, in milliseconds, a file may sit unmodified before cached
/// bytecode for it counts as stale.
pub const STALENESS_MS: u64 = 50;

/// The cache is stale when more than `STALENESS_MS` passed between the
/// file's last modification and the present access. The comparison is
/// against the file's age, not against the cache's own last compile, so any
/// file untouched for the threshold recompiles on every access; that
/// coarse policy is kept as designed.
pub open spec fn stale_spec(now_ms: u64, modified_ms: u64) -> bool {
    now_ms > modified_ms + STALENESS_MS
}

/// A recompile is due when no bytecode is cached yet, or the cache is
/// stale.
pub open spec fn needs_compile_spec(cache: Option<Seq<u8>>, stale: bool) -> bool {
    cache is None || stale
}

/// First access always compiles: with an empty cache a recompile is due
/// whatever the file's age says about staleness.
pub proof fn lemma_first_access_recompiles(stale: bool)
    ensures
        needs_compile_spec(None, stale),
{
}

/// A fresh cache is reused: with bytecode cached and the file modified no
/// longer than the threshold ago, no recompile is due.
pub proof fn lemma_fresh_cache_reused(cache: Option<Seq<u8>>, now_ms: u64, modified_ms: u64)
    requires
        cache is Some,
        !stale_spec(now_ms, modified_ms),
    ensures
        !needs_compile_spec(cache, stale_spec(now_ms, modified_ms)),
{
}

/// The mathematical shape of a `Shader`: its path, its stage, the cached
/// bytecode and the staleness clock.
pub ghost struct ShaderModel {
    pub path: Seq<char>,
    pub kind: ShaderType,
    pub cache: Option<Seq<u8>>,
    pub stamp_ms: u64,
}

/// One shader stage's compiled state: a source path, the staleness clock,
/// and the bytecode of the last successful compile, if any.
pub struct Shader {
    spirv: Option<Vec<u8>>,
    shader_type: ShaderType,
    path: String,
    timestamp_ms: u64,
}

impl View for Shader {
    type V = ShaderModel;

    closed spec fn view(&self) -> ShaderModel {
        ShaderModel {
            path: self.path@,
            kind: self.shader_type,
            cache: match self.spirv {
                Some(bytecode) => Some(bytecode@),
                None => None,
            },
            stamp_ms: self.timestamp_ms,
        }
    }
}

impl Shader {
    /// A fresh entry: no bytecode yet and the clock set to the given time,
    /// so the first access always compiles.
    pub fn from_path(path: String, shader_type: ShaderType, now_ms: u64) -> (s: Shader)
        ensures
            s@ == (ShaderModel { path: path@, kind: shader_type, cache: None, stamp_ms: now_ms }),
    {
        Shader { spirv: None, shader_type, path, timestamp_ms: now_ms }
    }

    /// The exact staleness comparison: true when the file behind
    /// `modified_ms` has sat unmodified longer than the threshold at time
    /// `now_ms`. A modification time in the future counts as fresh.
    pub fn is_stale(now_ms: u64, modified_ms: u64) -> (r: bool)
        ensures
            r == stale_spec(now_ms, modified_ms),
    {
        now_ms > modified_ms && now_ms - modified_ms > STALENESS_MS
    }

    /// Asks the store for the file's modification time and weighs its age
    /// against the threshold. Which answer comes back depends on the store
    /// and the clock, so the comparison itself is pinned by `is_stale` and
    /// nothing is promised of this result.
    pub fn outdated<F: SourceFiles, C: Clock>(&self, files: &mut F, clock: &mut C) -> Result<
        bool,
        IoError,
    > {
        match files.modified_ms(&self.path) {
            Ok(modified) => Ok(Self::is_stale(clock.now_ms(), modified)),
            Err(e) => Err(e),
        }
    }

    /// True while compiled bytecode is cached.
    pub fn has_cached(&self) -> (r: bool)
        ensures
            r == (self@.cache is Some),
    {
        match &self.spirv {
            Some(_) => true,
            None => false,
        }
    }

    /// The path this entry compiles from.
    pub fn path(&self) -> (p: &String)
        ensures
            p@ == self@.path,
    {
        &self.path
    }

    /// Reads the source and compiles it: the whole work of a cache miss.
    fn compile<F: SourceFiles, K: SpirvCompiler>(
        path: &String,
        shader_type: &ShaderType,
        files: &mut F,
        compiler: &mut K,
    ) -> Result<Vec<u8>, ShaderError> {
        match files.read_source(path) {
            Ok(glsl) => match compiler.compile(&glsl, shader_type) {
                Ok(bytecode) => Ok(bytecode),
                Err(e) => Err(ShaderError::Compile(e)),
            },
            Err(e) => Err(ShaderError::Io(e)),
        }
    }

    /// Acts on one staleness decision: recompiles when no bytecode is
    /// cached or when `stale` holds, and otherwise leaves the entry
    /// untouched and succeeds without any compile. A failed recompile also
    /// leaves the entry unchanged, its previous bytecode included.
    pub fn refresh<F: SourceFiles, C: Clock, K: SpirvCompiler>(
        &mut self,
        stale: bool,
        files: &mut F,
        clock: &mut C,
        compiler: &mut K,
    ) -> (r: Result<(), ShaderError>)
        ensures
            !needs_compile_spec(old(self)@.cache, stale) ==> (r matches Ok(_)) && final(self)@
                == old(self)@,
            r matches Ok(_) ==> final(self)@.cache is Some && final(self)@.path == old(self)@.path
                && final(self)@.kind == old(self)@.kind,
            r matches Err(_) ==> final(self)@ == old(self)@,
    {
        let needs_compile: bool = match &self.spirv {
            Some(_) => stale,
            None => true,
        };
        if needs_compile {
            match Self::compile(&self.path, &self.shader_type, files, compiler) {
                Ok(bytecode) => {
                    self.timestamp_ms = clock.now_ms();
                    self.spirv = Some(bytecode);
                    Ok(())
                },
                Err(e) => Err(e),
            }
        } else {
            Ok(())
        }
    }

    /// Bytecode for this stage, recompiled first when none is cached or the
    /// cache is stale. On success the returned buffer is exactly what the
    /// cache now holds; on any failure the entry is left as it was, its
    /// previous bytecode included.
    pub fn spirv<F: SourceFiles, C: Clock, K: SpirvCompiler>(
        &mut self,
        files: &mut F,
        clock: &mut C,
        compiler: &mut K,
    ) -> (r: Result<Vec<u8>, ShaderError>)
        ensures
            r matches Ok(b) ==> final(self)@.cache == Some(b@),
            r matches Ok(b) ==> final(self)@.path == old(self)@.path && final(self)@.kind == old(
                self,
            )@.kind,
            r matches Err(_) ==> final(self)@ == old(self)@,
    {
        let stale: bool = match &self.spirv {
            Some(_) => match self.outdated(files, clock) {
                Ok(stale) => stale,
                Err(e) => {
                    return Err(ShaderError::Io(e));
                },
            },
            // With nothing cached, `refresh` compiles whatever the verdict.
            None => false,
        };
        if let Err(e) = self.refresh(stale, files, clock, compiler) {
            return Err(e);
        }
        match &self.spirv {
            Some(bytecode) => Ok(vstd::slice::slice_to_vec(bytecode.as_slice())),
            None => vstd::pervasive::unreached(),
        }
    }
}

/// One registry row: a logical pair name and its two source paths.
pub struct ShaderPairEntry {
    pub name: String,
    pub vs: String,
    pub fs: String,
}

/// The one logical shader-pair name the registry knows.
pub open spec fn pair_name() -> Seq<char> {
    "simple_triangle"@
}

/// The vertex source path registered under `pair_name`.
pub open spec fn vertex_path() -> Seq<char> {
    "assets/shaders/simple_triangle/simple.vert.glsl"@
}

/// The fragment source path registered under `pair_name`.
pub open spec fn fragment_path() -> Seq<char> {
    "assets/shaders/simple_triangle/simple.frag.glsl"@
}

/// Whether the registry has an entry for `name`.
pub open spec fn registry_has(name: Seq<char>) -> bool {
    name == pair_name()
}

/// The path a registered name resolves to for the given stage.
pub open spec fn registry_path(name: Seq<char>, kind: ShaderType) -> Seq<char> {
    if kind is Vertex {
        vertex_path()
    } else {
        fragment_path()
    }
}

/// What a successful resolution hands back: a fresh entry for the requested
/// stage whose path the registry fixed.
pub open spec fn resolved_from(
    s: ShaderModel,
    name: Seq<char>,
    kind: ShaderType,
    now_ms: u64,
) -> bool {
    s.cache is None && s.kind == kind && s.path == registry_path(name, kind) && s.stamp_ms == now_ms
}

/// Names in the table are pairwise distinct: the invariant the lookup rests
/// on.
pub open spec fn table_names_unique(t: Seq<ShaderPairEntry>) -> bool {
    forall|i: int, j: int| 0 <= i < j < t.len() ==> t[i].name@ != t[j].name@
}

/// The registry's fixed, process-lifetime table, rebuilt on demand; rows
/// are never added or removed at run time.
fn shader_table() -> (t: Vec<ShaderPairEntry>)
    ensures
        t@.len() == 1,
        t@[0].name@ == pair_name(),
        t@[0].vs@ == vertex_path(),
        t@[0].fs@ == fragment_path(),
        table_names_unique(t@),
{
    let mut t: Vec<ShaderPairEntry> = Vec::new();
    t.push(
        ShaderPairEntry {
            name: "simple_triangle".to_owned(),
            vs: "assets/shaders/simple_triangle/simple.vert.glsl".to_owned(),
            fs: "assets/shaders/simple_triangle/simple.frag.glsl".to_owned(),
        },
    );
    t
}

/// The registry misses the requested name.
#[derive(Debug, PartialEq, Eq, Structural, Clone, Copy)]
pub struct LookupError {}

/// Resolves logical shader-pair names against the fixed table.
pub struct ShaderManager {}

impl ShaderManager {
    /// Resolves a name to a fresh cache entry for the requested stage.
    /// Succeeds exactly on the names the registry holds.
    pub fn from_name(name: &str, shader_type: ShaderType, now_ms: u64) -> (r: Result<
        Shader,
        LookupError,
    >)
        ensures
            r matches Ok(s) ==> registry_has(name@) && resolved_from(
                s@,
                name@,
                shader_type,
                now_ms,
            ),
            r matches Err(_) ==> !registry_has(name@),
    {
        let table = shader_table();
        let key: String = name.to_owned();
        let mut i: usize = 0;
        while i < table.len()
            invariant
                i <= table@.len(),
                table@.len() == 1,
                table@[0].name@ == pair_name(),
                table@[0].vs@ == vertex_path(),
                table@[0].fs@ == fragment_path(),
                key@ == name@,
                forall|j: int| 0 <= j < i ==> table@[j].name@ != name@,
            decreases table@.len() - i,
        {
            if table[i].name == key {
                let path = match shader_type {
                    ShaderType::Vertex => table[i].vs.clone(),
                    ShaderType::Fragment => table[i].fs.clone(),
                };
                return Ok(Shader::from_path(path, shader_type, now_ms));
            }
            i = i + 1;
        }
        Err(LookupError {})
    }
}

/// Registry lookup is a function of name and stage alone: two successful
/// resolutions of the same name for the same stage point at the same path,
/// whenever they happen.
pub proof fn lemma_resolve_idempotent(
    a: ShaderModel,
    b: ShaderModel,
    name: Seq<char>,
    kind: ShaderType,
    now_a: u64,
    now_b: u64,
)
    requires
        resolved_from(a, name, kind, now_a),
        resolved_from(b, name, kind, now_b),
    ensures
        a.path == b.path,
        a.kind == b.kind,
        a.cache is None,
        b.cache is None,
{
}

} // verus!
