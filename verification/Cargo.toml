[package]
name = "meta_fetcher"
version = "0.1.0"
edition = "2021"
publish = false

[dependencies]
select = "*"
texting_robots = "*"
ureq = "2"
