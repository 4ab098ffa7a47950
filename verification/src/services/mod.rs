pub mod webhook;
