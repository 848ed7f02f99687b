use git_sv::conflicts_help::{conflicts_help_content, CONFLICTS_HELP_TITLE};
use git_sv::github_pr::{detail_line, pr_content, pr_title, CheckSummary, GithubPullRequest};
use git_sv::repository_insights::{
    enabled_hook_count, insights_content, insights_title, HookInfo, RepositoryInsights, SignatureState, SubmoduleInfo,
    SubmoduleState,
};
use git_sv::style::{Segment, ThemeColor};

fn content_text(lines: &[Vec<Segment>]) -> String {
    lines.iter().map(|l| l.iter().map(|s| s.text.as_str()).collect::<String>()).collect::<Vec<_>>().join("\n")
}

fn sample_insights() -> RepositoryInsights {
    RepositoryInsights {
        commit: "0123456789012345678901234567890123456789".to_string(),
        signature: SignatureState::Unsigned,
        signature_summary: "Commit non signé".to_string(),
        hooks: vec![HookInfo { name: "pre-commit".to_string(), enabled: true }],
        submodules: vec![SubmoduleInfo {
            name: "lib".to_string(),
            path: "vendor/lib".to_string(),
            url: Some("https://example.com/lib.git".to_string()),
            revision: Some("abcdef0".to_string()),
            state: SubmoduleState::Clean,
            state_label: "propre".to_string(),
        }],
        dirty_submodule_count: 0,
    }
}

#[test]
fn test_content_contains_all_diagnostic_sections() {
    let insights = sample_insights();
    let content = content_text(&insights_content(&insights));
    assert!(content.contains("Signature"));
    assert!(content.contains("pre-commit"));
    assert!(content.contains("vendor/lib"));
}

#[test]
fn insights_lines_follow_the_sections() {
    let mut insights = sample_insights();
    insights.hooks.push(HookInfo { name: "commit-msg".to_string(), enabled: false });
    let lines = insights_content(&insights);
    let texts: Vec<String> = lines.iter().map(|l| l.iter().map(|s| s.text.as_str()).collect()).collect();
    assert_eq!(texts[1], " Signature du commit ");
    assert_eq!(texts[2], "  ○ Commit non signé");
    assert_eq!(texts[4], " Hooks · 1 actif(s) / 2 configuré(s) ");
    assert_eq!(texts[5], "  ✓ pre-commit");
    assert_eq!(texts[6], "  ○ commit-msg · non exécutable");
    assert_eq!(texts[8], " Sous-modules · 1 · 0 à vérifier ");
    assert_eq!(texts[9], "  ✓ vendor/lib · abcdef0 · propre");
    assert_eq!(texts[10], "      https://example.com/lib.git");
    assert_eq!(texts.last().unwrap(), "  j/k défiler · Esc ou i fermer");
    assert_eq!(lines[9][0].style.fg, Some(ThemeColor::Success));
    assert_eq!(insights_title(&insights), " Diagnostic dépôt · 0123456 ");
    assert_eq!(enabled_hook_count(&insights.hooks), 1);
    let empty = RepositoryInsights { hooks: vec![], submodules: vec![], ..sample_insights() };
    let text = content_text(&insights_content(&empty));
    assert!(text.contains("  Aucun hook personnalisé"));
    assert!(text.contains("  Aucun sous-module"));
}

#[test]
fn pull_request_overlay_lists_its_details() {
    let pr = GithubPullRequest {
        number: 7,
        title: "Improve TUI".to_string(),
        state: "OPEN".to_string(),
        is_draft: true,
        review_label: "approuvée".to_string(),
        merge_label: "propre".to_string(),
        url: "https://github.com/acme/repo/pull/7".to_string(),
        additions: 10,
        deletions: 2,
        changed_files: 3,
        checks: CheckSummary { passed: 2, failed: 0, pending: 1, skipped: 0 },
    };
    assert_eq!(pr_title(&pr), " GitHub PR #7 · OPEN · brouillon ");
    let lines = pr_content(&pr);
    let texts: Vec<String> = lines.iter().map(|l| l.iter().map(|s| s.text.as_str()).collect()).collect();
    assert_eq!(texts[3], "Revue    approuvée");
    assert_eq!(texts[5], "Checks (3)2 réussis · 0 échoués · 1 en cours · 0 ignorés");
    assert_eq!(texts[6], "Diff     3 fichiers · +10 / -2");
    assert_eq!(lines[8][0].style.fg, Some(ThemeColor::Primary));
    let checks = detail_line("Checks", "2 réussis");
    assert!(checks[0].text.contains("Checks"));
    assert!(checks[0].style.bold);
}

#[test]
fn conflicts_help_lists_the_shortcuts() {
    let lines = conflicts_help_content();
    assert_eq!(lines.len(), 31);
    assert_eq!(lines[0][0].text, "Raccourcis de la vue Conflits");
    assert!(lines[0][0].style.bold);
    assert_eq!(lines[2][0].style.fg, Some(ThemeColor::Warning));
    assert!(content_text(&lines).contains("  V           - Finaliser le merge (créer le commit)"));
    assert_eq!(CONFLICTS_HELP_TITLE, "Aide - Résolution de conflits");
}
