pub mod p256;
