pub mod lin_kv;
