use prai::git::{diff_args, get_diff, parse_default_branch, GitOutput};
use prai::providers::prompt::Prompt;
use prai::text::strip_trailing_blanks;

const EXPECTED: &str = r#"[ROLE]
You are a technical writer creating PR summaries.
[DIRECTIVE]
Write a professional summary of the changes made in the diff. Start directly with the summary, no conversational preamble.
Use markdown syntax. Mention any breaking changes. Do not write code. Use the following as an example template. Do not check boxes which are not
included in the diff.
[PULL_REQUEST_TEMPLATE]
# Summary
Brief description of what this PR accomplishes.

## Changes Made
- List the main changes
- Use bullet points for clarity
- Be specific about what was modified

## Type of Change
Feature, Bug, Chore, Docs


## Breaking Changes
List any breaking changes and migration steps if applicable.

## Additional Notes
Any additional context, considerations, or follow-up items.
[DIFF]
diff --git a/src/main.rs b/src/main.rs
index 88f8b72..935c050 100644
--- a/src/main.rs
+++ b/src/main.rs
@@ -1,5 +1,5 @@
 use clap::Parser;
-use reqwest::header::{AUTHORIZATION, CONTENT_TYPE, HeaderMap, HeaderValue};
+use reqwest::header::{CONTENT_TYPE, HeaderMap, HeaderValue};
 use serde_json::json;
 use std::process::Command;

@@ -13,6 +13,9 @@ struct Args {
     /// Head commit hash
     head: String,

+    #[arg(short, long, default_value = ":!*.lock")]
+    exclude: String,
+
     /// Anthropic API key (or set ANTHROPIC_API_KEY env var)
     #[arg(short, long, env = "ANTHROPIC_API_KEY")]
     api_key: String,
@@ -23,7 +26,9 @@ async fn main() -> Result<(), Box<dyn std::error::Error>> {
     let args = Args::parse();

     // Generate git diff
-    let diff = get_git_diff(&args.base, &args.head)?;
+    let diff = get_git_diff(&args.base, &args.head, &args.exclude)?;
+
+    println!("{diff}");

     if diff.trim().is_empty() {
         println!(
@@ -41,8 +46,15 @@ async fn main() -> Result<(), Box<dyn std::error::Error>> {
     Ok(())
 }

-fn get_git_diff(base: &str, head: &str) -> Result<String, Box<dyn std::error::Error>> {
-    let output = Command::new("git").args(["diff", base, head]).output()?;
+fn get_git_diff(
+    base: &str,
+    head: &str,
+    exclude: &str,
+) -> Result<String, Box<dyn std::error::Error>> {
+    println!("{exclude}");
+    let output = Command::new("git")
+        .args(["diff", base, head, "--", exclude])
+        .output()?;

     if !output.status.success() {
         let error = String::from_utf8_lossy(&output.stderr);
@@ -57,12 +69,8 @@ async fn generate_pr_description(
     api_key: &str,
 ) -> Result<String, Box<dyn std::error::Error>> {
     let client = reqwest::Client::new();
-
     let mut headers = HeaderMap::new();
-    headers.insert(
-        AUTHORIZATION,
-        HeaderValue::from_str(&format!("Bearer {}", api_key))?,
-    );
+    headers.insert("x-api-key", HeaderValue::from_str(api_key).unwrap());
     headers.insert(CONTENT_TYPE, HeaderValue::from_static("application/json"));
     headers.insert("anthropic-version", HeaderValue::from_static("2023-06-01"));

@@ -90,6 +98,7 @@ async fn generate_pr_description(
     let response = client
         .post("https://api.anthropic.com/v1/messages")
         .headers(headers)
+        // .bearer_auth(api_key)
         .json(&request_body)
         .send()
         .await?;
"#;

fn fixture_diff() -> String {
    let marker = "[DIFF]\n";
    let pos = EXPECTED.find(marker).unwrap() + marker.len();
    // Real diff output carries one space on blank context lines; the
    // composer strips it back out.
    EXPECTED[pos..].replace("\n\n", "\n \n")
}

#[test]
fn test_prompt() {
    let git = GitOutput { success: true, stdout: fixture_diff(), stderr: String::new() };
    let prompt = Prompt::render("683ddd6", "d2bbcc5", None, None, None, false, git)
        .unwrap()
        .replace(" \n", "\n");
    let args = diff_args("683ddd6", "d2bbcc5", &vec![":!*.lock".to_string()]);
    assert_eq!(args[4], ":!*.lock");
    assert_eq!(EXPECTED.trim(), prompt.as_str().trim());
}

#[test]
fn test_parse_branch() {
    let input_str = r#"* remote origin
  Fetch URL: git@github.com:theelderbeever/prai-cli.git
  Push  URL: git@github.com:theelderbeever/prai-cli.git
  HEAD branch: main
  Remote branches:
    1-add-configuration-and-provider-support                                 tracked
    main                                                                     tracked
    refs/remotes/origin/5-update-dependencies                                stale (use 'git remote prune' to remove)
    refs/remotes/origin/7-dont-exclude-other-languages-from-the-default-role stale (use 'git remote prune' to remove)
  Local branches configured for 'git pull':
    1-add-configuration-and-provider-support merges with remote 1-add-configuration-and-provider-support
    main                                     merges with remote main
  Local refs configured for 'git push':
    1-add-configuration-and-provider-support pushes to 1-add-configuration-and-provider-support (up to date)
    main                                     pushes to main                                     (local out of date)
"#;

    let branch = parse_default_branch(input_str.as_bytes());

    assert_eq!(Some("main"), branch.as_deref());
}

#[test]
fn parse_branch_handles_crlf_and_absence() {
    let crlf = b"* remote origin\r\n  HEAD branch: develop\r\n  Remote branches:\r\n";
    assert_eq!(Some("develop"), parse_default_branch(crlf).as_deref());
    assert_eq!(None, parse_default_branch(b"no marker anywhere\n").as_deref());
    assert_eq!(None, parse_default_branch(b"  HEAD branch: \n").as_deref());
}

#[test]
fn render_uses_title_directive_only_in_title_mode() {
    let diff = "diff --git a/x b/x\n";
    let out_desc = Prompt::render(
        "a",
        "b",
        None,
        None,
        None,
        false,
        GitOutput { success: true, stdout: diff.to_string(), stderr: String::new() },
    )
    .unwrap();
    let out_title = Prompt::render(
        "a",
        "b",
        None,
        None,
        None,
        true,
        GitOutput { success: true, stdout: diff.to_string(), stderr: String::new() },
    )
    .unwrap();
    assert!(out_desc.contains(Prompt::default_directive()));
    assert!(!out_desc.contains(Prompt::default_title_directive()));
    assert!(out_title.contains(Prompt::default_title_directive()));
    assert!(!out_title.contains(Prompt::default_directive()));
    let before = format!("[ROLE]\n{}\n[DIRECTIVE]\n", Prompt::default_role());
    let after = format!(
        "\n[PULL_REQUEST_TEMPLATE]\n{}\n[DIFF]\n{}\n",
        Prompt::default_template(),
        diff
    );
    assert_eq!(
        out_desc,
        format!("{}{}{}", before, Prompt::default_directive(), after)
    );
    assert_eq!(
        out_title,
        format!("{}{}{}", before, Prompt::default_title_directive(), after)
    );
}

#[test]
fn render_respects_overrides() {
    let git = GitOutput { success: true, stdout: "D\n".to_string(), stderr: String::new() };
    let out = Prompt::render("a", "b", Some("R"), Some("I"), Some("T"), false, git).unwrap();
    assert_eq!(out, "[ROLE]\nR\n[DIRECTIVE]\nI\n[PULL_REQUEST_TEMPLATE]\nT\n[DIFF]\nD\n\n");
}

#[test]
fn render_propagates_empty_diff_as_no_changes() {
    let git = GitOutput { success: true, stdout: String::new(), stderr: String::new() };
    let err = Prompt::render("683ddd6", "683ddd6", None, None, None, false, git).unwrap_err();
    assert_eq!(err.message(), "No differences between `683ddd6` and `683ddd6`");
}

#[test]
fn render_propagates_diff_failure() {
    let git = GitOutput {
        success: false,
        stdout: String::new(),
        stderr: "fatal: bad revision".to_string(),
    };
    let err = Prompt::render("a", "b", None, None, None, false, git).unwrap_err();
    assert_eq!(err.message(), "Git diff failed: fatal: bad revision");
}

#[test]
fn get_diff_distinguishes_outcomes() {
    let ok = get_diff(
        "a",
        "b",
        GitOutput { success: true, stdout: "x\n".to_string(), stderr: String::new() },
    );
    assert_eq!(ok.unwrap(), "x\n");
    let none = get_diff(
        "a",
        "a",
        GitOutput { success: true, stdout: String::new(), stderr: String::new() },
    );
    assert_eq!(
        none.unwrap_err().message(),
        "No differences between `a` and `a`"
    );
    let fail = get_diff(
        "a",
        "b",
        GitOutput { success: false, stdout: String::new(), stderr: "boom".to_string() },
    );
    assert_eq!(fail.unwrap_err().message(), "Git diff failed: boom");
}

#[test]
fn diff_args_forwards_exclusions() {
    let args = diff_args(
        "main",
        "HEAD",
        &vec![":!*.lock".to_string(), ":!target".to_string()],
    );
    assert_eq!(args, vec!["diff", "main", "HEAD", "--", ":!*.lock :!target"]);
    let bare = diff_args("main", "HEAD", &Vec::new());
    assert_eq!(bare, vec!["diff", "main", "HEAD", "--", ""]);
}

#[test]
fn strip_trailing_blanks_only_before_newlines() {
    assert_eq!(strip_trailing_blanks("a \nb\t\t\nc "), "a\nb\nc ");
    assert_eq!(strip_trailing_blanks(" \n"), "\n");
    assert_eq!(strip_trailing_blanks("  a\n"), "  a\n");
    assert_eq!(strip_trailing_blanks(""), "");
}
