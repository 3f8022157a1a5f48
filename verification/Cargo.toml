[package]
name = "utterance_segmenter"
version = "0.1.0"
edition = "2021"
publish = false

[dependencies]
biquad = "=0.6.0"
chrono = "=0.4.45"
cpal = "0.15"
dasp = { version = "=0.11.0", features = ["all"] }
hound = "=3.5.1"
log = "=0.4.34"
simplelog = "=0.12.2"
tokio = { version = "=1.54.1", features = ["rt-multi-thread", "macros", "sync"] }
voice_activity_detector = "0.1"
