//! The checks and arguments for compiling a sketch and uploading it to a board with the Arduino
//! CLI.

use vstd::prelude::*;
use super::Error;
use super::board::{Board, unknown_core};

verus! {

/// The extension of a sketch's main file.
pub const SKETCH_EXTENSION: &'static str = ".ino";

/// What the file system shows of a would-be sketch directory: its canonical path, whether it is
/// a directory, its base name and the names of the entries in it.
#[derive(Clone, Debug)]
pub struct SketchDir {
    pub path: String,
    pub is_dir: bool,
    pub name: String,
    pub files: Vec<String>,
}

/// The views of a list of texts.
pub open spec fn texts_of(v: Seq<String>) -> Seq<Seq<char>> {
    v.map_values(|s: String| s@)
}

/// The name of the main file of a sketch in a directory with base name `name`.
pub open spec fn sketch_file_of(name: Seq<char>) -> Seq<char> {
    name + SKETCH_EXTENSION@
}

/// The path of a sketch: a directory that holds a file named after the directory with the
/// extension `.ino`. Anything else (a path that could not be resolved, a file, a directory
/// without that file) is an `InvalidSketchPath`.
pub open spec fn sketch_outcome(found: Option<SketchDir>) -> Result<Seq<char>, Error> {
    match found {
        Some(dir) => if dir.is_dir && texts_of(dir.files@).contains(sketch_file_of(dir.name@)) {
            Ok(dir.path@)
        } else {
            Err(Error::InvalidSketchPath)
        },
        None => Err(Error::InvalidSketchPath),
    }
}

/// The arguments that compile the sketch at `path` for `board`.
pub open spec fn compile_args(board_fqbn: Seq<char>, path: Seq<char>) -> Seq<Seq<char>> {
    seq!["compile"@, "--fqbn"@, board_fqbn, path]
}

/// The arguments that upload the compiled sketch at `path` to `board` at `port`.
pub open spec fn upload_args(port: Seq<char>, board_fqbn: Seq<char>, path: Seq<char>) -> Seq<
    Seq<char>,
> {
    seq!["upload"@, "--port"@, port, "--fqbn"@, board_fqbn, path]
}

/// The name of the main file of a sketch in a directory with base name `name`.
pub fn sketch_file_name(name: &String) -> (r: String)
    ensures
        r@ == sketch_file_of(name@),
{
    let mut r = name.clone();
    r.append(SKETCH_EXTENSION);
    r
}

/// Checks that `found` is a sketch directory and returns its canonical path.
pub fn sketch_to_string(found: Option<SketchDir>) -> (r: Result<String, Error>)
    ensures
        super::text_result(r) == sketch_outcome(found),
{
    match found {
        None => Err(Error::InvalidSketchPath),
        Some(dir) => {
            if !dir.is_dir {
                return Err(Error::InvalidSketchPath);
            }
            let expected = sketch_file_name(&dir.name);
            let mut i: usize = 0;
            while i < dir.files.len()
                invariant
                    i <= dir.files@.len(),
                    found == Some(dir),
                    dir.is_dir,
                    expected@ == sketch_file_of(dir.name@),
                    forall|j: int| 0 <= j < i ==> dir.files@[j]@ != expected@,
                decreases dir.files@.len() - i,
            {
                if dir.files[i] == expected {
                    proof {
                        assert(texts_of(dir.files@)[i as int] == expected@);
                        assert(texts_of(dir.files@).contains(sketch_file_of(dir.name@)));
                    }
                    return Ok(dir.path);
                }
                i = i + 1;
            }
            proof {
                assert forall|j: int| 0 <= j < texts_of(dir.files@).len() implies texts_of(
                    dir.files@,
                )[j] != expected@ by {
                    assert(texts_of(dir.files@)[j] == dir.files@[j]@);
                }
            }
            Err(Error::InvalidSketchPath)
        },
    }
}

/// The views of a list of arguments.
pub open spec fn args_result(r: Result<Vec<String>, Error>) -> Result<Seq<Seq<char>>, Error> {
    match r {
        Ok(args) => Ok(texts_of(args@)),
        Err(e) => Err(e),
    }
}

/// The arguments of the Arduino CLI that compile the sketch `found` for `board`:
/// `CommandFailure` for a board whose core is not installed (before the sketch is looked at),
/// `InvalidSketchPath` for a sketch that is not one.
pub fn compile(found: Option<SketchDir>, board: &Board) -> (r: Result<Vec<String>, Error>)
    ensures
        args_result(r) == (if unknown_core(board@.name, board@.fqbn) {
            Err(Error::CommandFailure)
        } else {
            match sketch_outcome(found) {
                Ok(path) => Ok(compile_args(board@.fqbn, path)),
                Err(e) => Err(e),
            }
        }),
{
    if board.has_unknown_core() {
        return Err(Error::CommandFailure);
    }
    let path = match sketch_to_string(found) {
        Ok(path) => path,
        Err(e) => return Err(e),
    };
    let mut args: Vec<String> = Vec::new();
    args.push(String::from_str("compile"));
    args.push(String::from_str("--fqbn"));
    args.push(String::from_str(board.fqbn()));
    args.push(path);
    proof {
        assert(texts_of(args@) == compile_args(board@.fqbn, args@[3]@));
    }
    Ok(args)
}

/// The arguments of the Arduino CLI that upload the compiled sketch `found` to `board`:
/// `CommandFailure` for a board whose core is not installed (before the sketch is looked at),
/// `InvalidSketchPath` for a sketch that is not one.
pub fn upload(found: Option<SketchDir>, board: &Board) -> (r: Result<Vec<String>, Error>)
    ensures
        args_result(r) == (if unknown_core(board@.name, board@.fqbn) {
            Err(Error::CommandFailure)
        } else {
            match sketch_outcome(found) {
                Ok(path) => Ok(upload_args(board@.port, board@.fqbn, path)),
                Err(e) => Err(e),
            }
        }),
{
    if board.has_unknown_core() {
        return Err(Error::CommandFailure);
    }
    let path = match sketch_to_string(found) {
        Ok(path) => path,
        Err(e) => return Err(e),
    };
    let mut args: Vec<String> = Vec::new();
    args.push(String::from_str("upload"));
    args.push(String::from_str("--port"));
    args.push(String::from_str(board.port()));
    args.push(String::from_str("--fqbn"));
    args.push(String::from_str(board.fqbn()));
    args.push(path);
    proof {
        assert(texts_of(args@) == upload_args(board@.port, board@.fqbn, args@[5]@));
    }
    Ok(args)
}

} // verus!
