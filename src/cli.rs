use vstd::prelude::*;

verus! {

/// Declares clap_complete's `Shell`, the shells for which a completion script
/// can be rendered. The library only carries a value of it through to the
/// renderer and reads nothing inside it.
#[verifier::external_type_specification]
#[verifier::external_body]
pub struct ExShell(clap_complete::Shell);

/// The parsed command line: one optional positional file name and three
/// render flags, each of which asks for generated text in place of a file.
pub struct Cli {
    /// The file to create.
    pub filename: Option<String>,
    /// `--completion <SHELL>`: render a completion script for this shell.
    pub generate_completions: Option<clap_complete::Shell>,
    /// `--markdown`: render the help page as markdown.
    pub generate_markdown_page: bool,
    /// `--man`: render the man page.
    pub generate_man_page: bool,
}

/// One of the three render flags.
#[derive(Clone, Copy, Debug, PartialEq, Eq, Structural)]
pub enum RenderFlag {
    Completion,
    Markdown,
    Man,
}

/// The long name of a flag, as written on the command line after `--`.
pub open spec fn flag_name(f: RenderFlag) -> Seq<char> {
    match f {
        RenderFlag::Completion => "completion"@,
        RenderFlag::Markdown => "markdown"@,
        RenderFlag::Man => "man"@,
    }
}

/// Whether the command line sets flag `f`.
pub open spec fn flag_is_set(cli: &Cli, f: RenderFlag) -> bool {
    match f {
        RenderFlag::Completion => cli.generate_completions is Some,
        RenderFlag::Markdown => cli.generate_markdown_page,
        RenderFlag::Man => cli.generate_man_page,
    }
}

/// The flags that the command line sets, in the order completion, markdown, man.
pub open spec fn set_flags(cli: &Cli) -> Seq<RenderFlag> {
    let c = if flag_is_set(cli, RenderFlag::Completion) { seq![RenderFlag::Completion] } else { seq![] };
    let d = if flag_is_set(cli, RenderFlag::Markdown) { seq![RenderFlag::Markdown] } else { seq![] };
    let m = if flag_is_set(cli, RenderFlag::Man) { seq![RenderFlag::Man] } else { seq![] };
    c + d + m
}

impl RenderFlag {
    /// The flag's long name, without the leading `--`.
    pub fn name(&self) -> (r: &'static str)
        ensures
            r@ == flag_name(*self),
    {
        match self {
            RenderFlag::Completion => "completion",
            RenderFlag::Markdown => "markdown",
            RenderFlag::Man => "man",
        }
    }
}

impl Cli {
    /// The render flags that are set, in the order completion, markdown, man.
    pub fn render_flags(&self) -> (r: Vec<RenderFlag>)
        ensures
            r@ == set_flags(self),
    {
        let mut r: Vec<RenderFlag> = Vec::new();
        if self.generate_completions.is_some() {
            r.push(RenderFlag::Completion);
        }
        if self.generate_markdown_page {
            r.push(RenderFlag::Markdown);
        }
        if self.generate_man_page {
            r.push(RenderFlag::Man);
        }
        proof {
            assert(r@ =~= set_flags(self));
        }
        r
    }
}

} // verus!
