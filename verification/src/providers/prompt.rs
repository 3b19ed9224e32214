//! The prompt composer: it combines the diff, a role, a directive and a
//! pull-request template into one labeled prompt, substituting built-in
//! defaults where no override is given, and normalizing trailing whitespace
//! for stable output. The diff itself arrives as the raw outcome of the
//! external tool; this module never spawns anything.

use vstd::prelude::*;
use vstd::string::*;

use crate::error::Error;
use crate::git::{get_diff, GitOutput};
use crate::text::{strip_spec, strip_trailing_blanks};

verus! {

/// Composes prompts from their parts; all state is in the arguments.
pub struct Prompt;

/// The built-in role text.
pub open spec fn default_role_spec() -> Seq<char> {
    "You are a technical writer creating PR summaries."@
}

/// The built-in pull-request template skeleton.
pub open spec fn default_template_spec() -> Seq<char> {
    "# Summary\nBrief description of what this PR accomplishes.\n\n## Changes Made\n- List the main changes\n- Use bullet points for clarity\n- Be specific about what was modified\n\n## Type of Change\nFeature, Bug, Chore, Docs\n\n\n## Breaking Changes\nList any breaking changes and migration steps if applicable.\n\n## Additional Notes\nAny additional context, considerations, or follow-up items."@
}

/// The built-in directive for a full description.
pub open spec fn default_directive_spec() -> Seq<char> {
    "Write a professional summary of the changes made in the diff. Start directly with the summary, no conversational preamble.\nUse markdown syntax. Mention any breaking changes. Do not write code. Use the following as an example template. Do not check boxes which are not\nincluded in the diff."@
}

/// The built-in directive for a title.
pub open spec fn default_title_directive_spec() -> Seq<char> {
    "Analyze this git diff and generate a concise PR title. The title should:\n- Be 50 characters or less\n- Use imperative mood (e.g., \"Add feature\" not \"Added feature\")\n- Be specific but concise about the main change\n- Not include punctuation at the end\nDon't include your own thought process. The output should be just the PR title."@
}

/// The role text used when `role` gives no override.
pub open spec fn resolved_role(role: Option<Seq<char>>) -> Seq<char> {
    match role {
        Some(r) => r,
        None => default_role_spec(),
    }
}

/// The directive used when `directive` gives no override: the title
/// directive in title mode, the description directive otherwise.
pub open spec fn resolved_directive(directive: Option<Seq<char>>, is_title: bool) -> Seq<char> {
    match directive {
        Some(d) => d,
        None => if is_title {
            default_title_directive_spec()
        } else {
            default_directive_spec()
        },
    }
}

/// The template used when `template` gives no override. The template section
/// is present even in title mode.
pub open spec fn resolved_template(template: Option<Seq<char>>) -> Seq<char> {
    match template {
        Some(t) => t,
        None => default_template_spec(),
    }
}

/// The prompt body before whitespace normalization: the four sections in
/// fixed order, each under its labeled header, with a trailing newline.
pub open spec fn prompt_sections(
    role: Seq<char>,
    directive: Seq<char>,
    template: Seq<char>,
    diff: Seq<char>,
) -> Seq<char> {
    "[ROLE]\n"@ + role + "\n[DIRECTIVE]\n"@ + directive + "\n[PULL_REQUEST_TEMPLATE]\n"@ + template
        + "\n[DIFF]\n"@ + diff + "\n"@
}

/// The finished prompt: the labeled sections, with every run of blanks that
/// precedes a newline stripped.
pub open spec fn rendered_prompt(
    role: Option<Seq<char>>,
    directive: Option<Seq<char>>,
    template: Option<Seq<char>>,
    is_title: bool,
    diff: Seq<char>,
) -> Seq<char> {
    strip_spec(
        prompt_sections(
            resolved_role(role),
            resolved_directive(directive, is_title),
            resolved_template(template),
            diff,
        ),
    )
}

/// The view of an optional override.
pub open spec fn opt_view(o: Option<&str>) -> Option<Seq<char>> {
    match o {
        Some(s) => Some(s@),
        None => None,
    }
}

impl Prompt {
    /// The built-in role text.
    pub fn default_role() -> (r: &'static str)
        ensures
            r@ == default_role_spec(),
    {
        "You are a technical writer creating PR summaries."
    }

    /// The built-in pull-request template skeleton.
    pub fn default_template() -> (r: &'static str)
        ensures
            r@ == default_template_spec(),
    {
        "# Summary\nBrief description of what this PR accomplishes.\n\n## Changes Made\n- List the main changes\n- Use bullet points for clarity\n- Be specific about what was modified\n\n## Type of Change\nFeature, Bug, Chore, Docs\n\n\n## Breaking Changes\nList any breaking changes and migration steps if applicable.\n\n## Additional Notes\nAny additional context, considerations, or follow-up items."
    }

    /// The built-in directive for a full description.
    pub fn default_directive() -> (r: &'static str)
        ensures
            r@ == default_directive_spec(),
    {
        "Write a professional summary of the changes made in the diff. Start directly with the summary, no conversational preamble.\nUse markdown syntax. Mention any breaking changes. Do not write code. Use the following as an example template. Do not check boxes which are not\nincluded in the diff."
    }

    /// The built-in directive for a title.
    pub fn default_title_directive() -> (r: &'static str)
        ensures
            r@ == default_title_directive_spec(),
    {
        "Analyze this git diff and generate a concise PR title. The title should:\n- Be 50 characters or less\n- Use imperative mood (e.g., \"Add feature\" not \"Added feature\")\n- Be specific but concise about the main change\n- Not include punctuation at the end\nDon't include your own thought process. The output should be just the PR title."
    }

    /// Joins the resolved sections under their headers and normalizes
    /// trailing whitespace. Pure: the result is a function of the arguments.
    pub fn compose(
        diff: &str,
        role: Option<&str>,
        directive: Option<&str>,
        template: Option<&str>,
        is_title: bool,
    ) -> (r: String)
        ensures
            r@ == rendered_prompt(opt_view(role), opt_view(directive), opt_view(template), is_title, diff@),
    {
        let role_text: &str = match role {
            Some(r) => r,
            None => Self::default_role(),
        };
        let directive_text: &str = match directive {
            Some(d) => d,
            None => if is_title {
                Self::default_title_directive()
            } else {
                Self::default_directive()
            },
        };
        let template_text: &str = match template {
            Some(t) => t,
            None => Self::default_template(),
        };
        let mut body = String::new();
        body.append("[ROLE]\n");
        body.append(role_text);
        body.append("\n[DIRECTIVE]\n");
        body.append(directive_text);
        body.append("\n[PULL_REQUEST_TEMPLATE]\n");
        body.append(template_text);
        body.append("\n[DIFF]\n");
        body.append(diff);
        body.append("\n");
        proof {
            assert(Seq::<char>::empty() + "[ROLE]\n"@ =~= "[ROLE]\n"@);
        }
        strip_trailing_blanks(body.as_str())
    }

    /// Renders the prompt for the diff between `base` and `head`, whose raw
    /// tool outcome is handed in as `git`. A failed or empty diff propagates
    /// unchanged as `DiffFailed` or `NoChanges`; in particular no prompt is
    /// ever rendered from an empty diff.
    pub fn render(
        base: &str,
        head: &str,
        role: Option<&str>,
        directive: Option<&str>,
        template: Option<&str>,
        is_title: bool,
        git: GitOutput,
    ) -> (r: Result<String, Error>)
        ensures
            !git.success ==> (r matches Err(e) && e matches Error::DiffFailed { detail } && detail@
                == git.stderr@),
            git.success && git.stdout@.len() == 0 ==> (r matches Err(e)
                && e matches Error::NoChanges { base: b, head: h } && b@ == base@ && h@ == head@),
            git.success && git.stdout@.len() > 0 ==> (r matches Ok(p) && p@ == rendered_prompt(
                opt_view(role),
                opt_view(directive),
                opt_view(template),
                is_title,
                git.stdout@,
            )),
    {
        let diff = match get_diff(base, head, git) {
            Ok(d) => d,
            Err(e) => {
                return Err(e);
            },
        };
        Ok(Self::compose(diff.as_str(), role, directive, template, is_title))
    }
}

/// The composed sections around two different directives share the same text
/// before and after the directive section: with everything else fixed, the
/// directive is the only part that changes between description mode and
/// title mode.
pub proof fn lemma_directive_is_only_difference(
    role: Seq<char>,
    template: Seq<char>,
    diff: Seq<char>,
    d1: Seq<char>,
    d2: Seq<char>,
)
    ensures
        ({
            let before = "[ROLE]\n"@ + role + "\n[DIRECTIVE]\n"@;
            let after = "\n[PULL_REQUEST_TEMPLATE]\n"@ + template + "\n[DIFF]\n"@ + diff + "\n"@;
            prompt_sections(role, d1, template, diff) == before + d1 + after && prompt_sections(
                role,
                d2,
                template,
                diff,
            ) == before + d2 + after
        }),
{
    let before = "[ROLE]\n"@ + role + "\n[DIRECTIVE]\n"@;
    let after = "\n[PULL_REQUEST_TEMPLATE]\n"@ + template + "\n[DIFF]\n"@ + diff + "\n"@;
    assert(prompt_sections(role, d1, template, diff) =~= before + d1 + after);
    assert(prompt_sections(role, d2, template, diff) =~= before + d2 + after);
}

} // verus!
