//! The patterns of the files that the counter template generates. A `{}`
//! marks a hole; doubled braces stand for single ones.

use vstd::prelude::*;

verus! {

/// The package manifest. A pattern.
pub const COUNTER_CARGO_TOML: &'static str = r#"[package]
name = "{}"
version = "0.1.0"
edition = "2021"
description = "A Star Frame counter program"

[dependencies]
star_frame = {{ version = "{}", features = ["idl"] }}
bytemuck = {{ version = "1.18", features = ["derive"] }}
borsh = {{ version = "1.5", features = ["derive"] }}
anyhow = "1.0"

[lib]
crate-type = ["cdylib", "lib"]

[features]
default = []
test_helpers = ["star_frame/test_helpers"]
idl = ["star_frame/idl"]

[package.metadata.solana]
program-id = "{}"

[dev-dependencies]
tokio = {{ version = "1.0", features = ["macros", "rt-multi-thread"] }}
"#;

/// The program itself. A pattern.
pub const COUNTER_LIB_RS: &'static str = r#"use star_frame::{{
    anyhow::bail,
    derive_more::{{self, Deref, DerefMut}},
    empty_star_frame_instruction,
    prelude::*,
}};

#[derive(StarFrameProgram)]
#[program(
    instruction_set = {}InstructionSet,
    id = "{}"
)]
pub struct {};

#[derive(InstructionSet)]
pub enum {}InstructionSet {{
    Create{}(Create{}Ix),
    UpdateSigner(Update{}SignerIx),
    Count(CountIx),
    Close{}(Close{}Ix),
}}

#[derive(Align1, Pod, Zeroable, Default, Copy, Clone, Debug, Eq, PartialEq, ProgramAccount)]
#[program_account(seeds = {}AccountSeeds)]
#[repr(C, packed)]
pub struct {}Account {{
    pub version: u8,
    pub owner: Pubkey,
    pub signer: Pubkey,
    pub count: u64,
    pub bump: u8,
    pub data: {}AccountData,
}}

#[derive(Align1, Pod, Zeroable, Default, Copy, Clone, Debug, Eq, PartialEq, TypeToIdl)]
#[repr(C, packed)]
pub struct {}AccountData {{
    pub version: u8,
    pub owner: Pubkey,
    pub signer: Pubkey,
    pub count: u64,
    pub bump: u8,
}}

#[derive(AccountSet, Deref, DerefMut, Debug)]
pub struct Wrapped{}(#[single_account_set] Account<{}Account>);

#[derive(Debug, GetSeeds, Clone)]
#[get_seeds(seed_const = b"{}")]
pub struct {}AccountSeeds {{
    pub owner: Pubkey,
}}

#[derive(BorshSerialize, BorshDeserialize, Debug, InstructionArgs)]
pub struct Create{}Ix {{
    #[ix_args(&run)]
    pub start_at: Option<u64>,
}}

#[derive(AccountSet)]
pub struct Create{}Accounts {{
    #[validate(funder)]
    pub funder: Signer<Mut<SystemAccount>>,
    pub owner: SystemAccount,
    #[validate(arg = (
        CreateIfNeeded(()),
        Seeds({}AccountSeeds {{ owner: *self.owner.pubkey() }}),
    ))]
    pub counter: Init<Seeded<Wrapped{}>>,
    pub system_program: Program<System>,
}}

impl StarFrameInstruction for Create{}Ix {{
    type ReturnType = ();
    type Accounts<'b, 'c> = Create{}Accounts;

    fn process(
        accounts: &mut Self::Accounts<'_, '_>,
        start_at: Self::RunArg<'_>,
        _ctx: &mut Context,
    ) -> Result<Self::ReturnType> {{
        **accounts.counter.data_mut()? = {}Account {{
            version: 0,
            signer: *accounts.owner.pubkey(),
            owner: *accounts.owner.pubkey(),
            bump: accounts.counter.access_seeds().bump,
            count: start_at.unwrap_or(0),
            data: Default::default(),
        }};

        Ok(())
    }}
}}

#[derive(BorshSerialize, BorshDeserialize, Debug, InstructionArgs)]
#[ix_args(&run)]
pub struct Update{}SignerIx;

#[derive(AccountSet, Debug)]
#[validate(extra_validation = self.validate())]
pub struct Update{}SignerAccounts {{
    pub signer: Signer<SystemAccount>,
    pub new_signer: SystemAccount,
    pub counter: Mut<Account<{}Account>>,
}}

impl Update{}SignerAccounts {{
    fn validate(&self) -> Result<()> {{
        if *self.signer.pubkey() != self.counter.data()?.signer {{
            bail!("Incorrect signer");
        }}
        Ok(())
    }}
}}

impl StarFrameInstruction for Update{}SignerIx {{
    type ReturnType = ();
    type Accounts<'b, 'c> = Update{}SignerAccounts;

    fn process(
        accounts: &mut Self::Accounts<'_, '_>,
        _run_arg: Self::RunArg<'_>,
        _ctx: &mut Context,
    ) -> Result<Self::ReturnType> {{
        let mut counter = accounts.counter.data_mut()?;
        counter.signer = *accounts.new_signer.pubkey();

        Ok(())
    }}
}}

#[derive(BorshSerialize, BorshDeserialize, Debug, Copy, Clone, InstructionArgs)]
#[ix_args(run)]
pub struct CountIx {{
    pub amount: u64,
    pub subtract: bool,
}}

#[derive(AccountSet, Debug)]
#[validate(extra_validation = self.validate())]
pub struct CountAccounts {{
    pub owner: Signer<SystemAccount>,
    pub counter: Mut<Account<{}Account>>,
}}

impl CountAccounts {{
    fn validate(&self) -> Result<()> {{
        if *self.owner.pubkey() != self.counter.data()?.owner {{
            bail!("Incorrect owner");
        }}
        Ok(())
    }}
}}

impl StarFrameInstruction for CountIx {{
    type ReturnType = ();
    type Accounts<'b, 'c> = CountAccounts;

    fn process(
        accounts: &mut Self::Accounts<'_, '_>,
        CountIx {{ amount, subtract }}: Self::RunArg<'_>,
        _ctx: &mut Context,
    ) -> Result<Self::ReturnType> {{
        let mut counter = accounts.counter.data_mut()?;
        let new_count: u64 = if subtract {{
            counter.count - amount
        }} else {{
            counter.count + amount
        }};
        counter.count = new_count;

        Ok(())
    }}
}}

#[derive(BorshSerialize, BorshDeserialize, Debug, InstructionArgs)]
pub struct Close{}Ix;

#[derive(AccountSet, Debug)]
pub struct Close{}Accounts {{
    #[validate(address = &self.counter.data()?.signer)]
    pub signer: Signer<SystemAccount>,
    #[validate(recipient)]
    pub counter: Mut<Wrapped{}>,
    #[validate(recipient)]
    pub funds_to: Mut<SystemAccount>,
}}
empty_star_frame_instruction!(Close{}Ix, Close{}Accounts);
        "#;

/// The test file. A pattern.
pub const COUNTER_TEST_RS: &'static str = r#"use {}::*;
use star_frame::prelude::*;

#[cfg(test)]
mod tests {{
    use super::*;

    #[test]
    fn test_{}_initialization() {{
        // Test logic will be implemented here
        // This is a placeholder for Star Frame testing utilities
        println!("{} initialization test");
    }}

    #[test]
    fn test_{}_increment() {{
        // Test logic will be implemented here
        println!("{} increment test");
    }}

    #[test]
    fn test_{}_decrement() {{
        // Test logic will be implemented here
        println!("{} decrement test");
    }}

    #[test]
    fn test_{}_overflow_protection() {{
        // Test {} overflow protection
        println!("{} overflow protection test");
    }}

    #[test]
    fn test_{}_underflow_protection() {{
        // Test {} underflow protection
        println!("{} underflow protection test");
    }}

    #[test]
    fn test_authority_validation() {{
        // Test authority validation
        println!("Authority validation test");
    }}

    #[cfg(feature = "idl")]
    #[test]
    fn generate_idl() -> star_frame::Result<()> {{
        use star_frame::prelude::*;
        let idl = {}::program_to_idl()?;
        let idl_json = star_frame::serde_json::to_string_pretty(&idl)?;
        std::fs::write("idl.json", &idl_json)?;
        Ok(())
    }}
}}
"#;

/// The read-me. A pattern.
pub const COUNTER_README: &'static str = r#"# {} - Star Frame Counter Program

A simple counter program built with the Star Frame framework for Solana.

## Features

- ✅ Initialize counter with optional starting value
- ✅ Increment counter with overflow protection
- ✅ Decrement counter with underflow protection
- ✅ Authority-based access control
- ✅ Type-safe account validation
- ✅ Compile-time instruction verification

## Getting Started

### Prerequisites

- Rust 1.84.1+
- Solana CLI tools
- Star Frame CLI

### Building

```bash
starpin build
```

### Testing

```bash
starpin test
```

### Deploying

To devnet:
```bash
starpin deploy
```

To mainnet:
```bash
starpin deploy --mainnet
```

### Generate IDL

```bash
starpin idl
```

## Program Structure

- `{}Account`: Program account storing authority and count
- `Create{}`: Initialize a new counter
- `Count`: Increment/decrement the counter value
- `Close{}`: Close the counter and reclaim rent

## Security Features

- Authority validation for all operations
- Overflow/underflow protection
- Type-safe account handling
- Compile-time validation

## Program ID

```
{}
```
"#;

/// What version control passes over. Plain text.
pub const COUNTER_GITIGNORE: &'static str = r#"# Rust
target/
Cargo.lock

# Solana
keypairs/
.anchor/

# IDEs
.vscode/
.idea/

# OS
.DS_Store
Thumbs.db

# Environment
.env
"#;

/// The tool's own manifest, with the program's identifier for each network. A pattern.
pub const COUNTER_STARPIN_TOML: &'static str = r#"[toolchain]

[features]
resolution = true
skip-lint = false

[programs.localnet]
{} = "{}"

[programs.devnet]
{} = "{}"

[programs.mainnet]
{} = "{}"

[registry]
url = "https://api.apr.dev"

[provider]
cluster = "localnet"
wallet = "~/.config/solana/id.json"

[scripts]
build = "starpin build"
test = "starpin test"
deploy = "starpin deploy"
"#;

} // verus!
