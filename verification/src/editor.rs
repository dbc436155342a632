//! Starting the user's editor: which program it is and what it is told to
//! open.

use crate::text::{concat2, lowercase, lowercase_text, same_text, texts};
use vstd::prelude::*;
use vstd::string::*;

verus! {

/// How an editor is told what to open.
pub trait EditArgsBuilder {
    /// The arguments that open the four files of a puzzle.
    spec fn solution_args(
        &self,
        puzzlefile: Seq<char>,
        examplefile: Seq<char>,
        libfile: Seq<char>,
        inputfile: Seq<char>,
    ) -> Seq<Seq<char>>;

    /// The arguments that open the four files of a puzzle: its
    /// description, the example, the solution and the input.
    fn solution_command(
        &self,
        puzzlefile: &str,
        examplefile: &str,
        libfile: &str,
        inputfile: &str,
    ) -> (args: Vec<String>)
        ensures
            texts(args@) == self.solution_args(puzzlefile@, examplefile@, libfile@, inputfile@),
    ;

    /// The arguments that open `files`: the files themselves, in order.
    fn files_command(&self, files: Vec<&str>) -> (args: Vec<String>)
        ensures
            args@.len() == files@.len(),
            forall|i: int| 0 <= i < files@.len() ==> (#[trigger] args@[i])@ == files@[i]@,
    ;
}

fn owned_all(files: &Vec<&str>) -> (args: Vec<String>)
    ensures
        args@.len() == files@.len(),
        forall|i: int| 0 <= i < files@.len() ==> (#[trigger] args@[i])@ == files@[i]@,
{
    let mut args: Vec<String> = Vec::new();
    let mut i: usize = 0;
    while i < files.len()
        invariant
            i <= files.len(),
            args@.len() == i,
            forall|k: int| 0 <= k < i ==> (#[trigger] args@[k])@ == files@[k]@,
        decreases files.len() - i,
    {
        args.push(String::from_str(files[i]));
        i = i + 1;
    }
    args
}

/// Arguments for vim and its kin: the solution and the input as buffers,
/// the example and the description in splits.
#[derive(Debug, Clone, Copy, PartialEq, Eq, Structural)]
pub struct VimArgs {}

/// Arguments for any other editor: the four files, one after the other.
#[derive(Debug, Clone, Copy, PartialEq, Eq, Structural)]
pub struct GenericArgs {}

impl EditArgsBuilder for VimArgs {
    open spec fn solution_args(
        &self,
        puzzlefile: Seq<char>,
        examplefile: Seq<char>,
        libfile: Seq<char>,
        inputfile: Seq<char>,
    ) -> Seq<Seq<char>> {
        seq![libfile, inputfile, "+vsplit "@ + examplefile, "+split "@ + puzzlefile]
    }

    fn solution_command(
        &self,
        puzzlefile: &str,
        examplefile: &str,
        libfile: &str,
        inputfile: &str,
    ) -> (args: Vec<String>) {
        let mut args: Vec<String> = Vec::new();
        args.push(String::from_str(libfile));
        args.push(String::from_str(inputfile));
        args.push(concat2("+vsplit ", examplefile));
        args.push(concat2("+split ", puzzlefile));
        assert(texts(args@) =~= self.solution_args(
            puzzlefile@,
            examplefile@,
            libfile@,
            inputfile@,
        ));
        args
    }

    fn files_command(&self, files: Vec<&str>) -> (args: Vec<String>) {
        owned_all(&files)
    }
}

impl EditArgsBuilder for GenericArgs {
    open spec fn solution_args(
        &self,
        puzzlefile: Seq<char>,
        examplefile: Seq<char>,
        libfile: Seq<char>,
        inputfile: Seq<char>,
    ) -> Seq<Seq<char>> {
        seq![puzzlefile, examplefile, libfile, inputfile]
    }

    fn solution_command(
        &self,
        puzzlefile: &str,
        examplefile: &str,
        libfile: &str,
        inputfile: &str,
    ) -> (args: Vec<String>) {
        let mut files: Vec<&str> = Vec::new();
        files.push(puzzlefile);
        files.push(examplefile);
        files.push(libfile);
        files.push(inputfile);
        let args = self.files_command(files);
        assert(texts(args@) =~= self.solution_args(
            puzzlefile@,
            examplefile@,
            libfile@,
            inputfile@,
        ));
        args
    }

    fn files_command(&self, files: Vec<&str>) -> (args: Vec<String>) {
        owned_all(&files)
    }
}

/// The way of either kind of editor.
#[derive(Debug, Clone, Copy, PartialEq, Eq, Structural)]
pub enum ArgsBuilder {
    Vim(VimArgs),
    Generic(GenericArgs),
}

impl EditArgsBuilder for ArgsBuilder {
    open spec fn solution_args(
        &self,
        puzzlefile: Seq<char>,
        examplefile: Seq<char>,
        libfile: Seq<char>,
        inputfile: Seq<char>,
    ) -> Seq<Seq<char>> {
        match self {
            ArgsBuilder::Vim(b) => b.solution_args(puzzlefile, examplefile, libfile, inputfile),
            ArgsBuilder::Generic(b) => b.solution_args(
                puzzlefile,
                examplefile,
                libfile,
                inputfile,
            ),
        }
    }

    fn solution_command(
        &self,
        puzzlefile: &str,
        examplefile: &str,
        libfile: &str,
        inputfile: &str,
    ) -> (args: Vec<String>) {
        match self {
            ArgsBuilder::Vim(b) => b.solution_command(puzzlefile, examplefile, libfile, inputfile),
            ArgsBuilder::Generic(b) => b.solution_command(
                puzzlefile,
                examplefile,
                libfile,
                inputfile,
            ),
        }
    }

    fn files_command(&self, files: Vec<&str>) -> (args: Vec<String>) {
        owned_all(&files)
    }
}

/// What can go wrong with the editor.
#[derive(Debug, Clone, PartialEq, Eq)]
pub enum AocEditorError {
    /// The system could not start the program.
    Io(String),
    /// No editor of this name is known.
    Invalid(String),
    /// The program is not on the search path.
    NotFound(String),
    /// The environment names no editor.
    Var(String),
    /// The program ended with a failure.
    RunProgram(String),
}

/// The editors that are known.
#[derive(Debug, Clone, Copy, PartialEq, Eq, Structural)]
pub enum EditorType {
    Neovim,
    Vim,
    Code,
    Helix,
    Emacs,
    Gedit,
    Nano,
    Sublime,
}

/// `which::which`: whether a program of this name is found on the search
/// path. The answer depends on the environment and on what is on disk, so
/// nothing is claimed of it.
#[verifier::external_body]
pub(crate) fn on_search_path(program: &str) -> (found: bool) {
    which::which(program).is_ok()
}

impl EditorType {
    /// The program of the editor.
    pub open spec fn program_text(self) -> Seq<char> {
        match self {
            EditorType::Neovim => "nvim"@,
            EditorType::Vim => "vim"@,
            EditorType::Code => "code"@,
            EditorType::Helix => "hx"@,
            EditorType::Emacs => "emacs"@,
            EditorType::Gedit => "gedit"@,
            EditorType::Nano => "nano"@,
            EditorType::Sublime => "subl"@,
        }
    }

    /// The editor that a lowercase name stands for.
    pub open spec fn named(lower: Seq<char>) -> Option<EditorType> {
        if lower == "nvim"@ || lower == "neovim"@ {
            Some(EditorType::Neovim)
        } else if lower == "vim"@ {
            Some(EditorType::Vim)
        } else if lower == "code"@ {
            Some(EditorType::Code)
        } else if lower == "hx"@ || lower == "helix"@ {
            Some(EditorType::Helix)
        } else if lower == "emacs"@ {
            Some(EditorType::Emacs)
        } else if lower == "gedit"@ {
            Some(EditorType::Gedit)
        } else if lower == "nano"@ {
            Some(EditorType::Nano)
        } else if lower == "subl"@ || lower == "sublime"@ {
            Some(EditorType::Sublime)
        } else {
            None
        }
    }

    /// The way this editor is told what to open.
    pub fn to_args_builder(&self) -> (builder: ArgsBuilder)
        ensures
            builder == if self == EditorType::Neovim || self == EditorType::Vim {
                ArgsBuilder::Vim(VimArgs {  })
            } else {
                ArgsBuilder::Generic(GenericArgs {  })
            },
    {
        match self {
            EditorType::Neovim | EditorType::Vim => ArgsBuilder::Vim(VimArgs {  }),
            _ => ArgsBuilder::Generic(GenericArgs {  }),
        }
    }

    /// The name of the editor's program.
    pub fn program_name(&self) -> (name: &'static str)
        ensures
            name@ == self.program_text(),
    {
        match self {
            EditorType::Neovim => "nvim",
            EditorType::Vim => "vim",
            EditorType::Code => "code",
            EditorType::Helix => "hx",
            EditorType::Emacs => "emacs",
            EditorType::Gedit => "gedit",
            EditorType::Nano => "nano",
            EditorType::Sublime => "subl",
        }
    }

    /// The editor's program, given whether it was found on the search
    /// path.
    pub fn program_if_found(&self, found: bool) -> (r: Result<String, AocEditorError>)
        ensures
            found ==> (r matches Ok(program) && program@ == self.program_text()),
            !found ==> (r matches Err(AocEditorError::NotFound(program)) && program@
                == self.program_text()),
    {
        let program = self.program_name();
        if found {
            Ok(String::from_str(program))
        } else {
            Err(AocEditorError::NotFound(String::from_str(program)))
        }
    }

    /// The editor's program, if it is on the search path.
    pub fn to_program(&self) -> (r: Result<String, AocEditorError>)
        ensures
            r matches Ok(program) ==> program@ == self.program_text(),
            r matches Err(e) ==> (e matches AocEditorError::NotFound(program) && program@
                == self.program_text()),
    {
        let found = on_search_path(self.program_name());
        self.program_if_found(found)
    }

    /// The editor that a lowercase name stands for.
    pub fn from_lowercase(lower: &str) -> (r: Option<EditorType>)
        ensures
            r == EditorType::named(lower@),
    {
        if same_text(lower, "nvim") || same_text(lower, "neovim") {
            Some(EditorType::Neovim)
        } else if same_text(lower, "vim") {
            Some(EditorType::Vim)
        } else if same_text(lower, "code") {
            Some(EditorType::Code)
        } else if same_text(lower, "hx") || same_text(lower, "helix") {
            Some(EditorType::Helix)
        } else if same_text(lower, "emacs") {
            Some(EditorType::Emacs)
        } else if same_text(lower, "gedit") {
            Some(EditorType::Gedit)
        } else if same_text(lower, "nano") {
            Some(EditorType::Nano)
        } else if same_text(lower, "subl") || same_text(lower, "sublime") {
            Some(EditorType::Sublime)
        } else {
            None
        }
    }

    /// The editor that the program name `s` stands for, given whether a
    /// program of that name was found and the name in lowercase: a program
    /// that was not found is an error whatever its name, then a name that
    /// is not known is.
    pub fn from_found_name(s: &str, found: bool, lower: &str) -> (r: Result<
        EditorType,
        AocEditorError,
    >)
        ensures
            !found ==> (r matches Err(AocEditorError::NotFound(name)) && name@ == s@),
            found ==> match EditorType::named(lower@) {
                Some(editor) => r == Ok::<_, AocEditorError>(editor),
                None => r matches Err(AocEditorError::Invalid(name)) && name@ == lower@,
            },
    {
        if !found {
            return Err(AocEditorError::NotFound(String::from_str(s)));
        }
        match EditorType::from_lowercase(lower) {
            Some(editor) => Ok(editor),
            None => Err(AocEditorError::Invalid(String::from_str(lower))),
        }
    }

    /// The editor that the program name `s` stands for, if the program is
    /// on the search path.
    pub fn from_str(s: &str) -> (r: Result<EditorType, AocEditorError>)
        ensures
            r matches Ok(editor) ==> EditorType::named(lowercase_text(s@)) == Some(editor),
            r matches Err(AocEditorError::NotFound(name)) ==> name@ == s@,
            r matches Err(AocEditorError::Invalid(name)) ==> name@ == lowercase_text(s@)
                && EditorType::named(lowercase_text(s@)) is None,
            r matches Err(e) ==> e is NotFound || e is Invalid,
    {
        let found = on_search_path(s);
        let lower = lowercase(s);
        EditorType::from_found_name(s, found, lower.as_str())
    }
}

/// The editor to use: the configured one, else the one that the
/// environment names in `EDITOR`. `editor_var` is what reading that
/// variable gave: its value, or why it could not be read.
pub fn resolve_editor_type(configured: Option<EditorType>, editor_var: Result<String, String>) -> (r:
    Result<EditorType, AocEditorError>)
    ensures
        configured is Some ==> r == Ok::<_, AocEditorError>(configured->0),
        configured is None && editor_var is Err ==> (r matches Err(AocEditorError::Var(why))
            && why@ == editor_var->Err_0@),
        configured is None && editor_var is Ok ==> {
            let program = editor_var->Ok_0@;
            &&& r matches Ok(editor) ==> EditorType::named(lowercase_text(program)) == Some(
                editor,
            )
            &&& r matches Err(AocEditorError::NotFound(name)) ==> name@ == program
            &&& r matches Err(AocEditorError::Invalid(name)) ==> name@ == lowercase_text(program)
                && EditorType::named(lowercase_text(program)) is None
            &&& r matches Err(e) ==> e is NotFound || e is Invalid
        },
{
    match configured {
        Some(editor) => Ok(editor),
        None => match editor_var {
            Ok(program) => EditorType::from_str(program.as_str()),
            Err(why) => Err(AocEditorError::Var(why)),
        },
    }
}

/// An editor that can be started.
#[derive(Debug, Clone, PartialEq, Eq)]
pub struct Editor {
    program: String,
    args_builder: ArgsBuilder,
}

impl Editor {
    /// The program that is started.
    pub closed spec fn program_text(&self) -> Seq<char> {
        self.program@
    }

    /// The way the program is told what to open.
    pub closed spec fn builder(&self) -> ArgsBuilder {
        self.args_builder
    }

    /// The editor of the given type, given whether its program was found
    /// on the search path.
    pub fn from_found(editor_type: &EditorType, found: bool) -> (r: Result<Editor, AocEditorError>)
        ensures
            found ==> (r matches Ok(editor) && editor.program_text() == editor_type.program_text()
                && editor.builder() == (if editor_type == EditorType::Neovim || editor_type
                == EditorType::Vim {
                ArgsBuilder::Vim(VimArgs {  })
            } else {
                ArgsBuilder::Generic(GenericArgs {  })
            })),
            !found ==> (r matches Err(AocEditorError::NotFound(program)) && program@
                == editor_type.program_text()),
    {
        match editor_type.program_if_found(found) {
            Ok(program) => Ok(Editor { program, args_builder: editor_type.to_args_builder() }),
            Err(e) => Err(e),
        }
    }

    /// The editor of the given type, if its program is on the search path.
    pub fn new(editor_type: &EditorType) -> (r: Result<Editor, AocEditorError>)
        ensures
            r matches Ok(editor) ==> editor.program_text() == editor_type.program_text()
                && editor.builder() == (if editor_type == EditorType::Neovim || editor_type
                == EditorType::Vim {
                ArgsBuilder::Vim(VimArgs {  })
            } else {
                ArgsBuilder::Generic(GenericArgs {  })
            }),
            r matches Err(e) ==> (e matches AocEditorError::NotFound(program) && program@
                == editor_type.program_text()),
    {
        let found = on_search_path(editor_type.program_name());
        Editor::from_found(editor_type, found)
    }

    /// The program that is started.
    pub fn program(&self) -> (name: String)
        ensures
            name@ == self.program_text(),
    {
        self.program.clone()
    }

    /// The arguments that open the four files of a puzzle.
    pub fn open_solution(
        &self,
        puzzlefile: &str,
        examplefile: &str,
        libfile: &str,
        inputfile: &str,
    ) -> (args: Vec<String>)
        ensures
            texts(args@) == self.builder().solution_args(
                puzzlefile@,
                examplefile@,
                libfile@,
                inputfile@,
            ),
    {
        self.args_builder.solution_command(puzzlefile, examplefile, libfile, inputfile)
    }

    /// The arguments that open one file.
    pub fn open(&self, file: &str) -> (args: Vec<String>)
        ensures
            texts(args@) == seq![file@],
    {
        let mut args: Vec<String> = Vec::new();
        args.push(String::from_str(file));
        assert(texts(args@) =~= seq![file@]);
        args
    }

    /// What the end of the program means: a failure is an error that names
    /// the program.
    pub fn run(&self, success: bool) -> (r: Result<(), AocEditorError>)
        ensures
            success ==> r is Ok,
            !success ==> (r matches Err(AocEditorError::RunProgram(program)) && program@
                == self.program_text()),
    {
        if !success {
            return Err(AocEditorError::RunProgram(self.program.clone()));
        }
        Ok(())
    }
}

/// An editor that is started on the files of a puzzle, without changes to
/// its environment.
#[derive(Debug, Clone, PartialEq, Eq)]
pub struct EditorCommand {
    editor: Editor,
}

impl EditorCommand {
    /// The editor behind the command.
    pub closed spec fn editor(&self) -> Editor {
        self.editor
    }

    /// The command for the editor of the given type, given whether its
    /// program was found on the search path.
    pub fn from_found(editor_type: &EditorType, found: bool) -> (r: Result<
        EditorCommand,
        AocEditorError,
    >)
        ensures
            found ==> (r matches Ok(command) && command.editor().program_text()
                == editor_type.program_text() && command.editor().builder() == (if editor_type
                == EditorType::Neovim || editor_type == EditorType::Vim {
                ArgsBuilder::Vim(VimArgs {  })
            } else {
                ArgsBuilder::Generic(GenericArgs {  })
            })),
            !found ==> (r matches Err(AocEditorError::NotFound(program)) && program@
                == editor_type.program_text()),
    {
        match Editor::from_found(editor_type, found) {
            Ok(editor) => Ok(EditorCommand { editor }),
            Err(e) => Err(e),
        }
    }

    /// The command for the editor of the given type, if its program is on
    /// the search path.
    pub fn new(editor_type: &EditorType) -> (r: Result<EditorCommand, AocEditorError>)
        ensures
            r matches Ok(command) ==> command.editor().program_text()
                == editor_type.program_text() && command.editor().builder() == (if editor_type
                == EditorType::Neovim || editor_type == EditorType::Vim {
                ArgsBuilder::Vim(VimArgs {  })
            } else {
                ArgsBuilder::Generic(GenericArgs {  })
            }),
            r matches Err(e) ==> (e matches AocEditorError::NotFound(program) && program@
                == editor_type.program_text()),
    {
        match Editor::new(editor_type) {
            Ok(editor) => Ok(EditorCommand { editor }),
            Err(e) => Err(e),
        }
    }

    /// The program that is started.
    pub fn program(&self) -> (name: String)
        ensures
            name@ == self.editor().program_text(),
    {
        self.editor.program()
    }

    /// The arguments that open the four files of a puzzle.
    pub fn open_solution(
        &self,
        puzzlefile: &str,
        examplefile: &str,
        libfile: &str,
        inputfile: &str,
    ) -> (args: Vec<String>)
        ensures
            texts(args@) == self.editor().builder().solution_args(
                puzzlefile@,
                examplefile@,
                libfile@,
                inputfile@,
            ),
    {
        self.editor.open_solution(puzzlefile, examplefile, libfile, inputfile)
    }

    /// What the end of the program means.
    pub fn run(&self, success: bool) -> (r: Result<(), AocEditorError>)
        ensures
            success ==> r is Ok,
            !success ==> (r matches Err(AocEditorError::RunProgram(program)) && program@
                == self.editor().program_text()),
    {
        self.editor.run(success)
    }
}

/// A start of the editor: the program and its arguments.
#[derive(Debug, Clone, PartialEq, Eq)]
pub struct EditorCall {
    pub program: String,
    pub args: Vec<String>,
}

/// The editor that is started if its program is found: the configured
/// one, else the one that the program named by the environment stands
/// for. `program` is what the environment names, if it names anything.
pub open spec fn editor_choice(configured: Option<EditorType>, program: Option<Seq<char>>) -> Option<
    EditorType,
> {
    match configured {
        Some(editor) => Some(editor),
        None => match program {
            Some(name) => EditorType::named(lowercase_text(name)),
            None => None,
        },
    }
}

/// What the environment names as the editor, if it could be read.
pub open spec fn named_program(editor_var: Result<String, String>) -> Option<Seq<char>> {
    match editor_var {
        Ok(program) => Some(program@),
        Err(_) => None,
    }
}

/// The start of the user's editor on the four files of a puzzle: the
/// editor is the configured one, else the one that the environment names,
/// and its program has to be on the search path. Where it starts, it is
/// the chosen editor's program with that editor's arguments for the four
/// files. Where it does not, the error says why: the environment names no
/// editor, the program it names is not found or stands for no known
/// editor, or the chosen editor's program is not found.
pub fn open_solution_files(
    configured: Option<EditorType>,
    editor_var: Result<String, String>,
    puzzlefile: &str,
    examplefile: &str,
    libfile: &str,
    inputfile: &str,
) -> (r: Result<EditorCall, AocEditorError>)
    ensures
        r matches Ok(call) ==> (editor_choice(configured, named_program(editor_var)) matches Some(
            editor,
        ) && call.program@ == editor.program_text() && texts(call.args@) == solution_args_of(
            editor,
            puzzlefile@,
            examplefile@,
            libfile@,
            inputfile@,
        )),
        r matches Err(e) ==> match (configured, editor_var) {
            (Some(editor), _) => e matches AocEditorError::NotFound(program) && program@
                == editor.program_text(),
            (None, Err(why)) => e matches AocEditorError::Var(text) && text@ == why@,
            (None, Ok(named)) => match EditorType::named(lowercase_text(named@)) {
                Some(editor) => e matches AocEditorError::NotFound(program) && (program@
                    == named@ || program@ == editor.program_text()),
                None => (e matches AocEditorError::NotFound(program) && program@ == named@) || (
                e matches AocEditorError::Invalid(name) && name@ == lowercase_text(named@)),
            },
        },
        configured is None && editor_var is Err ==> r is Err,
{
    let editor_type = match resolve_editor_type(configured, editor_var) {
        Ok(editor_type) => editor_type,
        Err(e) => {
            return Err(e);
        },
    };
    let editor = match EditorCommand::new(&editor_type) {
        Ok(editor) => editor,
        Err(e) => {
            return Err(e);
        },
    };
    let args = editor.open_solution(puzzlefile, examplefile, libfile, inputfile);
    let call = EditorCall { program: editor.program(), args };
    assert(texts(call.args@) == solution_args_of(
        editor_type,
        puzzlefile@,
        examplefile@,
        libfile@,
        inputfile@,
    ));
    Ok(call)
}

/// The arguments with which an editor of the given type is started on the
/// four files of a puzzle.
pub open spec fn solution_args_of(
    editor: EditorType,
    puzzlefile: Seq<char>,
    examplefile: Seq<char>,
    libfile: Seq<char>,
    inputfile: Seq<char>,
) -> Seq<Seq<char>> {
    if editor == EditorType::Neovim || editor == EditorType::Vim {
        (VimArgs {  }).solution_args(puzzlefile, examplefile, libfile, inputfile)
    } else {
        (GenericArgs {  }).solution_args(puzzlefile, examplefile, libfile, inputfile)
    }
}

} // verus!
