use renderer::shader::Clock;
use renderer::shader::CompileError;
use renderer::shader::IoError;
use renderer::shader::Shader;
use renderer::shader::ShaderError;
use renderer::shader::ShaderManager;
use renderer::shader::ShaderType;
use renderer::shader::SourceFiles;
use renderer::shader::SpirvCompiler;

/// An in-memory source store that counts content reads and metadata
/// queries; `None` stands for a missing or deleted file.
struct MemFiles {
    content: Option<String>,
    mtime: Option<u64>,
    reads: usize,
    stats: usize,
}

impl SourceFiles for MemFiles {
    fn read_source(&mut self, _path: &String) -> Result<String, IoError> {
        self.reads += 1;
        match &self.content {
            Some(text) => Ok(text.clone()),
            None => Err(IoError::NotFound),
        }
    }

    fn modified_ms(&mut self, _path: &String) -> Result<u64, IoError> {
        self.stats += 1;
        match self.mtime {
            Some(m) => Ok(m),
            None => Err(IoError::NotFound),
        }
    }
}

/// A clock the test sets by hand.
struct FixedClock {
    t: u64,
}

impl Clock for FixedClock {
    fn now_ms(&mut self) -> u64 {
        self.t
    }
}

/// A compiler double: counts calls and hands back the source bytes as the
/// "bytecode", so changed sources give changed buffers.
struct CountingCompiler {
    calls: usize,
}

impl SpirvCompiler for CountingCompiler {
    fn compile(&mut self, source: &String, _kind: &ShaderType) -> Result<Vec<u8>, CompileError> {
        self.calls += 1;
        Ok(source.as_bytes().to_vec())
    }
}

/// A compiler double that rejects everything with a fixed diagnostic.
struct FailingCompiler {}

impl SpirvCompiler for FailingCompiler {
    fn compile(&mut self, _source: &String, _kind: &ShaderType) -> Result<Vec<u8>, CompileError> {
        Err(CompileError {
            message: String::from("syntax error"),
        })
    }
}

#[test]
fn first_access_compiles_exactly_once() {
    let mut files = MemFiles {
        content: Some(String::from("vertex source")),
        mtime: Some(1_000),
        reads: 0,
        stats: 0,
    };
    let mut clock = FixedClock { t: 1_000 };
    let mut compiler = CountingCompiler { calls: 0 };
    let mut shader = Shader::from_path(String::from("a.vert.glsl"), ShaderType::Vertex, 1_000);

    let bytes = shader.spirv(&mut files, &mut clock, &mut compiler).unwrap();
    assert_eq!(bytes, b"vertex source".to_vec());
    assert_eq!(compiler.calls, 1);
    assert_eq!(files.reads, 1);
    // The first access never even asks for the modification time.
    assert_eq!(files.stats, 0);
}

#[test]
fn first_access_compiles_even_for_an_old_file() {
    let mut files = MemFiles {
        content: Some(String::from("old source")),
        mtime: Some(0),
        reads: 0,
        stats: 0,
    };
    let mut clock = FixedClock { t: 1_000_000 };
    let mut compiler = CountingCompiler { calls: 0 };
    let mut shader = Shader::from_path(String::from("a.vert.glsl"), ShaderType::Vertex, 1_000_000);

    assert!(shader.spirv(&mut files, &mut clock, &mut compiler).is_ok());
    assert_eq!(compiler.calls, 1);
}

#[test]
fn fresh_cache_returns_identical_buffer_without_rereading() {
    let mut files = MemFiles {
        content: Some(String::from("vertex source")),
        mtime: Some(1_000),
        reads: 0,
        stats: 0,
    };
    let mut clock = FixedClock { t: 1_000 };
    let mut compiler = CountingCompiler { calls: 0 };
    let mut shader = Shader::from_path(String::from("a.vert.glsl"), ShaderType::Vertex, 1_000);

    let first = shader.spirv(&mut files, &mut clock, &mut compiler).unwrap();
    // 40 ms later and the file untouched: still within the 50 ms window.
    clock.t = 1_040;
    let second = shader.spirv(&mut files, &mut clock, &mut compiler).unwrap();
    assert_eq!(first, second);
    assert_eq!(compiler.calls, 1);
    assert_eq!(files.reads, 1);
}

#[test]
fn stale_cache_recompiles() {
    let mut files = MemFiles {
        content: Some(String::from("version one")),
        mtime: Some(1_000),
        reads: 0,
        stats: 0,
    };
    let mut clock = FixedClock { t: 1_000 };
    let mut compiler = CountingCompiler { calls: 0 };
    let mut shader = Shader::from_path(String::from("a.vert.glsl"), ShaderType::Vertex, 1_000);

    let first = shader.spirv(&mut files, &mut clock, &mut compiler).unwrap();
    // 51 ms past the file's modification time: stale, so the rewritten
    // source is compiled again.
    files.content = Some(String::from("version two"));
    clock.t = 1_051;
    let second = shader.spirv(&mut files, &mut clock, &mut compiler).unwrap();
    assert_ne!(first, second);
    assert_eq!(second, b"version two".to_vec());
    assert_eq!(compiler.calls, 2);
    assert_eq!(files.reads, 2);
}

#[test]
fn missing_file_fails_with_io_error_and_no_cache() {
    let mut files = MemFiles {
        content: None,
        mtime: None,
        reads: 0,
        stats: 0,
    };
    let mut clock = FixedClock { t: 500 };
    let mut compiler = CountingCompiler { calls: 0 };
    let mut shader =
        ShaderManager::from_name("simple_triangle", ShaderType::Vertex, 500).unwrap();

    let result = shader.spirv(&mut files, &mut clock, &mut compiler);
    assert_eq!(result, Err(ShaderError::Io(IoError::NotFound)));
    assert!(!shader.has_cached());
    assert_eq!(compiler.calls, 0);
}

#[test]
fn deleted_file_leaves_previous_cache_unchanged() {
    let mut files = MemFiles {
        content: Some(String::from("good source")),
        mtime: Some(1_000),
        reads: 0,
        stats: 0,
    };
    let mut clock = FixedClock { t: 1_000 };
    let mut compiler = CountingCompiler { calls: 0 };
    let mut shader = Shader::from_path(String::from("a.frag.glsl"), ShaderType::Fragment, 1_000);

    let first = shader.spirv(&mut files, &mut clock, &mut compiler).unwrap();
    // The file disappears: the access fails, but the entry keeps its
    // previous bytecode.
    files.content = None;
    files.mtime = None;
    clock.t = 2_000;
    let failed = shader.spirv(&mut files, &mut clock, &mut compiler);
    assert_eq!(failed, Err(ShaderError::Io(IoError::NotFound)));
    assert!(shader.has_cached());
    // The file comes back with its old modification time fresh again: the
    // surviving cache is served.
    files.mtime = Some(2_000);
    clock.t = 2_010;
    let third = shader.spirv(&mut files, &mut clock, &mut compiler).unwrap();
    assert_eq!(first, third);
    assert_eq!(compiler.calls, 1);
}

#[test]
fn compile_error_keeps_the_message_and_the_cache() {
    let mut files = MemFiles {
        content: Some(String::from("broken source")),
        mtime: Some(0),
        reads: 0,
        stats: 0,
    };
    let mut clock = FixedClock { t: 1_000 };
    let mut compiler = FailingCompiler {};
    let mut shader = Shader::from_path(String::from("a.vert.glsl"), ShaderType::Vertex, 1_000);

    let result = shader.spirv(&mut files, &mut clock, &mut compiler);
    assert_eq!(
        result,
        Err(ShaderError::Compile(CompileError {
            message: String::from("syntax error"),
        }))
    );
    assert!(!shader.has_cached());
}

#[test]
fn staleness_boundary_is_strictly_more_than_the_threshold() {
    // Exactly at the threshold: still fresh.
    assert!(!Shader::is_stale(1_050, 1_000));
    // One millisecond past it: stale.
    assert!(Shader::is_stale(1_051, 1_000));
    // A modification time in the future counts as fresh.
    assert!(!Shader::is_stale(1_000, 2_000));
    assert!(!Shader::is_stale(0, 0));
}

#[test]
fn resolve_is_idempotent_for_registered_names() {
    let a = ShaderManager::from_name("simple_triangle", ShaderType::Vertex, 0).unwrap();
    let b = ShaderManager::from_name("simple_triangle", ShaderType::Vertex, 99).unwrap();
    assert_eq!(
        a.path().as_str(),
        "assets/shaders/simple_triangle/simple.vert.glsl"
    );
    assert_eq!(a.path(), b.path());
    assert!(!a.has_cached());

    let f = ShaderManager::from_name("simple_triangle", ShaderType::Fragment, 0).unwrap();
    assert_eq!(
        f.path().as_str(),
        "assets/shaders/simple_triangle/simple.frag.glsl"
    );
}

#[test]
fn resolve_fails_every_time_for_unknown_names() {
    assert!(ShaderManager::from_name("unknown_name", ShaderType::Vertex, 0).is_err());
    assert!(ShaderManager::from_name("unknown_name", ShaderType::Vertex, 0).is_err());
    assert!(ShaderManager::from_name("", ShaderType::Fragment, 0).is_err());
}

/// A store whose file exists but cannot be read.
struct ForbiddenFiles {}

impl SourceFiles for ForbiddenFiles {
    fn read_source(&mut self, _path: &String) -> Result<String, IoError> {
        Err(IoError::PermissionDenied)
    }

    fn modified_ms(&mut self, _path: &String) -> Result<u64, IoError> {
        Err(IoError::Other)
    }
}

#[test]
fn unreadable_file_surfaces_the_permission_error() {
    let mut files = ForbiddenFiles {};
    let mut clock = FixedClock { t: 0 };
    let mut compiler = CountingCompiler { calls: 0 };
    let mut shader = Shader::from_path(String::from("a.vert.glsl"), ShaderType::Vertex, 0);

    let result = shader.spirv(&mut files, &mut clock, &mut compiler);
    assert_eq!(result, Err(ShaderError::Io(IoError::PermissionDenied)));
    assert_eq!(compiler.calls, 0);
}

#[test]
fn outdated_weighs_the_reported_age() {
    let mut clock = FixedClock { t: 1_100 };
    let shader = Shader::from_path(String::from("a.vert.glsl"), ShaderType::Vertex, 1_000);

    let mut files = MemFiles {
        content: Some(String::from("src")),
        mtime: Some(1_000),
        reads: 0,
        stats: 0,
    };
    // 100 ms old: past the 50 ms threshold.
    assert_eq!(shader.outdated(&mut files, &mut clock), Ok(true));
    files.mtime = Some(1_060);
    // 40 ms old: still fresh.
    assert_eq!(shader.outdated(&mut files, &mut clock), Ok(false));

    let mut broken = ForbiddenFiles {};
    assert_eq!(shader.outdated(&mut broken, &mut clock), Err(IoError::Other));
}

#[test]
fn refresh_leaves_a_fresh_cache_untouched() {
    let mut files = MemFiles {
        content: Some(String::from("source")),
        mtime: Some(0),
        reads: 0,
        stats: 0,
    };
    let mut clock = FixedClock { t: 0 };
    let mut compiler = CountingCompiler { calls: 0 };
    let mut shader = Shader::from_path(String::from("a.vert.glsl"), ShaderType::Vertex, 0);

    // First refresh: nothing cached, so it compiles whatever the verdict.
    assert_eq!(shader.refresh(false, &mut files, &mut clock, &mut compiler), Ok(()));
    assert!(shader.has_cached());
    assert_eq!(compiler.calls, 1);

    // A fresh verdict on a full cache: the entry is not touched at all.
    assert_eq!(shader.refresh(false, &mut files, &mut clock, &mut compiler), Ok(()));
    assert_eq!(compiler.calls, 1);
    assert_eq!(files.reads, 1);

    // A stale verdict recompiles.
    assert_eq!(shader.refresh(true, &mut files, &mut clock, &mut compiler), Ok(()));
    assert_eq!(compiler.calls, 2);
}
