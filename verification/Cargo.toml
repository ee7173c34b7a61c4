[package]
name = "snmp_session"
version = "0.1.0"
edition = "2021"
publish = false

[dependencies]
der-parser = "4.0"
nom = "5.1"
snmp-parser = "0.6"
