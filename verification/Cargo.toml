[package]
name = "wp_query_rs"
version = "0.1.0"
edition = "2021"
publish = false

[dependencies]
chrono = "=0.4.45"
ext-php-rs = "=0.16.3"
mysql = "=28.0.4"
mysql_async = "=0.37.1"
mysql_common = { version = "=0.37.3", features = ["time"] }
regex = "=1.13.1"
serde = "=1.0.229"
serde_php = "=0.5.0"
sql_paginatorr = "=0.1.2"
url = "=2.5.8"
