[package]
name = "git_worktree_cli"
version = "0.1.0"
edition = "2021"
publish = false

[dependencies]
anyhow = "=1.0.104"
clap = { version = "=4.6.7", features = ["derive"] }
clap_complete = "=4.6.11"
exitcode = "=1.1.2"
futures = "=0.3.34"
git2 = { version = "=0.21.0", default-features = false }
indexmap = "=2.14.2"
log = "=0.4.34"
octocrab = "=0.40.0"
pretty_env_logger = "=0.5.0"
regex = "=1.13.1"
skim = "=0.10.4"
tokio = { version = "=1.54.1", features = ["rt-multi-thread", "macros"] }
