pub mod humanize;
