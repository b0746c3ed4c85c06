# trading-vault

The rules of a Solana vault that holds tokens for automated trading, written and
proved in [Verus](https://github.com/verus-lang/verus).

A vault belongs to an owner, who decides which tokens it trades and through which
router, and may take everything out. A bot may trade for the owner and may have
everything paid out to the owner. The tokens lie in token accounts of an address for
which only the vault program signs.

## Layout

- `src/` is the verified library. It decides on requests: given the accounts of a
  request it returns what is to be asked of other programs and what is to be
  announced, or why the request is refused.
  - `pubkey`, `account`: addresses, accounts, and the calls into Anchor that derive
    the former and read the latter.
  - `vault`, `context`: the state of a vault, and the accounts that each request
    names.
  - `associated`: the token accounts that belong to a vault.
  - `management`, `trading`, `withdrawal`, `closing`: the requests.
  - `laws`: what holds of the program as a whole.
- `app/` is the Anchor program around the library. It unpacks requests, hands the
  library the accounts as they are, calls the other programs and emits the events.
- `tests/` runs the library against the real token and address code of Anchor.

## What is trusted

Derived addresses and the contents of token accounts and mints come from
`anchor_lang` and `anchor_spl`. The few functions that call them are marked
`external_body`; each says above it which function it calls and what is claimed of
the result.
