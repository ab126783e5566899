use drone_metrics::system_status::{
    fold_status, fold_status_step, select_wallet_platform_stages, system_status_of_selected,
    WALLET_PLATFORM_PATTERN,
};
use drone_metrics::{
    wallet_platform_system_status, Drone1Stage, Drone2Stage, DroneBuildAuthorData, DroneBuildInfo,
    DroneBuildListItem, DroneBuildTimestamps, DroneEvent, DroneGitMetadata, DroneStage,
    DroneStageTimestamps, DroneStatus,
};

fn stage(name: &str, status: DroneStatus) -> DroneStage {
    DroneStage::Drone2Stage(Drone2Stage {
        drone_stage: Drone1Stage {
            id: 1,
            repo_id: 2,
            build_id: 3,
            number: 1,
            name: name.to_string(),
            status,
            errignore: false,
            exit_code: 0,
            machine: None,
            os: "linux".to_string(),
            arch: "amd64".to_string(),
            timestamps: DroneStageTimestamps { started: 1, stopped: 2, created: 0, updated: 2 },
            version: 1,
            on_success: true,
            on_failure: false,
            steps: Vec::new(),
        },
        kind: "pipeline".to_string(),
        stage_type: "kubernetes".to_string(),
        depends_on: None,
    })
}

fn build(stages: Vec<DroneStage>) -> DroneBuildInfo {
    DroneBuildInfo {
        build_info: DroneBuildListItem {
            id: 1,
            repo_id: 2,
            trigger: "@hook".to_string(),
            number: 20,
            status: DroneStatus::Success,
            event: DroneEvent::PullRequest,
            action: "sync".to_string(),
            link: "https://github.com/BitGo/bitgo-microservices/pull/7".to_string(),
            timestamp: 0,
            message: "message".to_string(),
            git_metadata: DroneGitMetadata {
                prev_git_sha: "000".to_string(),
                git_sha: "abc123".to_string(),
                git_ref: "refs/pull/7/head".to_string(),
            },
            source_repo: String::new(),
            source: "feature".to_string(),
            target: "develop".to_string(),
            author_data: DroneBuildAuthorData {
                author_login: "login".to_string(),
                author_name: "name".to_string(),
                author_email: "name@example.com".to_string(),
                author_avatar: "https://example.com/avatar.png".to_string(),
            },
            sender: "sender".to_string(),
            timestamps: DroneBuildTimestamps { started: 120, finished: 300, created: 110, updated: 300 },
            version: 1,
        },
        stages,
    }
}

#[test]
fn fold_of_success_skipped_success_is_success() {
    let statuses = vec![DroneStatus::Success, DroneStatus::Skipped, DroneStatus::Success];
    assert_eq!(fold_status(&statuses), DroneStatus::Success);
}

#[test]
fn fold_of_success_failure_success_is_failure() {
    let statuses = vec![DroneStatus::Success, DroneStatus::Failure, DroneStatus::Success];
    assert_eq!(fold_status(&statuses), DroneStatus::Failure);
}

#[test]
fn fold_of_failure_success_is_failure() {
    let statuses = vec![DroneStatus::Failure, DroneStatus::Success];
    assert_eq!(fold_status(&statuses), DroneStatus::Failure);
}

#[test]
fn fold_of_success_failure_is_failure_too() {
    let statuses = vec![DroneStatus::Success, DroneStatus::Failure];
    assert_eq!(fold_status(&statuses), DroneStatus::Failure);
}

#[test]
fn fold_of_nothing_is_success() {
    assert_eq!(fold_status(&Vec::new()), DroneStatus::Success);
}

#[test]
fn fold_of_only_skipped_is_success() {
    let statuses = vec![DroneStatus::Skipped, DroneStatus::Skipped];
    assert_eq!(fold_status(&statuses), DroneStatus::Success);
}

#[test]
fn every_other_status_flips_the_fold_to_failure() {
    for status in [
        DroneStatus::Failure,
        DroneStatus::Killed,
        DroneStatus::Error,
        DroneStatus::Running,
        DroneStatus::Pending,
        DroneStatus::Other,
    ] {
        assert_eq!(fold_status(&vec![DroneStatus::Success, status]), DroneStatus::Failure);
        assert_eq!(fold_status(&vec![status, DroneStatus::Success]), DroneStatus::Failure);
    }
}

#[test]
fn fold_step_keeps_failure() {
    assert_eq!(fold_status_step(DroneStatus::Failure, DroneStatus::Success), DroneStatus::Failure);
    assert_eq!(fold_status_step(DroneStatus::Failure, DroneStatus::Skipped), DroneStatus::Failure);
    assert_eq!(fold_status_step(DroneStatus::Success, DroneStatus::Success), DroneStatus::Success);
    assert_eq!(fold_status_step(DroneStatus::Success, DroneStatus::Skipped), DroneStatus::Success);
    assert_eq!(fold_status_step(DroneStatus::Success, DroneStatus::Killed), DroneStatus::Failure);
}

#[test]
fn the_pattern_is_anchored_at_the_start() {
    assert_eq!(WALLET_PLATFORM_PATTERN, "^wallet-platform-.*");
}

#[test]
fn system_status_of_one_successful_wallet_platform_stage_is_success() {
    let build = build(vec![stage("wallet-platform-api", DroneStatus::Success)]);
    assert_eq!(wallet_platform_system_status(&build), DroneStatus::Success);
}

#[test]
fn system_status_sees_a_failed_wallet_platform_stage() {
    let build = build(vec![
        stage("wallet-platform-api", DroneStatus::Success),
        stage("wallet-platform-worker", DroneStatus::Failure),
        stage("wallet-platform-admin", DroneStatus::Success),
    ]);
    assert_eq!(wallet_platform_system_status(&build), DroneStatus::Failure);
}

#[test]
fn system_status_passes_over_stages_of_other_names() {
    let build = build(vec![
        stage("wallet-platform-api", DroneStatus::Success),
        stage("indexer", DroneStatus::Failure),
        stage("my-wallet-platform-api", DroneStatus::Killed),
        stage("wallet-platform", DroneStatus::Error),
    ]);
    assert_eq!(wallet_platform_system_status(&build), DroneStatus::Success);
}

#[test]
fn system_status_counts_the_bare_prefix() {
    let build = build(vec![stage("wallet-platform-", DroneStatus::Killed)]);
    assert_eq!(wallet_platform_system_status(&build), DroneStatus::Failure);
}

#[test]
fn system_status_passes_over_skipped_stages() {
    let build = build(vec![
        stage("wallet-platform-api", DroneStatus::Skipped),
        stage("wallet-platform-worker", DroneStatus::Success),
    ]);
    assert_eq!(wallet_platform_system_status(&build), DroneStatus::Success);
}

#[test]
fn system_status_without_wallet_platform_stages_is_success() {
    let build = build(vec![stage("lint", DroneStatus::Failure)]);
    assert_eq!(wallet_platform_system_status(&build), DroneStatus::Success);
}

#[test]
fn is_drone2_tells_the_generations_apart() {
    assert!(build(vec![stage("wallet-platform-api", DroneStatus::Success)]).is_drone2());
    assert!(!build(Vec::new()).is_drone2());
    let drone1 = match stage("build-pull-request", DroneStatus::Success) {
        DroneStage::Drone2Stage(stage) => DroneStage::Drone1Stage(stage.drone_stage),
        other => other,
    };
    assert!(!drone1.is_drone2());
    let mixed = build(vec![stage("wallet-platform-api", DroneStatus::Success), drone1]);
    assert!(!mixed.is_drone2());
}

#[test]
fn selection_answers_for_every_stage_in_order() {
    let stages = vec![
        stage("wallet-platform-api", DroneStatus::Success),
        stage("indexer", DroneStatus::Failure),
        stage("wallet-platform-", DroneStatus::Success),
        stage("my-wallet-platform-api", DroneStatus::Success),
        stage("wallet-platform", DroneStatus::Success),
        stage("Wallet-Platform-api", DroneStatus::Success),
        stage("wallet-platform-\nsecond-line", DroneStatus::Success),
        stage("", DroneStatus::Success),
    ];
    assert_eq!(
        select_wallet_platform_stages(&stages),
        vec![true, false, true, false, false, false, true, false]
    );
    assert!(select_wallet_platform_stages(&Vec::new()).is_empty());
}

#[test]
fn status_of_selected_folds_over_the_stages_that_count() {
    let stages = vec![
        stage("a", DroneStatus::Success),
        stage("b", DroneStatus::Killed),
        stage("c", DroneStatus::Skipped),
    ];
    assert_eq!(
        system_status_of_selected(&stages, &vec![true, false, true]),
        DroneStatus::Success
    );
    assert_eq!(
        system_status_of_selected(&stages, &vec![true, true, true]),
        DroneStatus::Failure
    );
    assert_eq!(
        system_status_of_selected(&stages, &vec![false, true, false]),
        DroneStatus::Failure
    );
    assert_eq!(
        system_status_of_selected(&stages, &vec![false, false, false]),
        DroneStatus::Success
    );
    assert_eq!(system_status_of_selected(&Vec::new(), &Vec::new()), DroneStatus::Success);
}
