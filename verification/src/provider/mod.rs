//! Hardware providers: the generic Linux one and the Acer Nitro V15 one
//! built on it.

pub mod generic_linux;
pub mod acer_nitro_v15;
