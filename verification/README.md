# fee_backcalc

A desktop calculator that works backwards from the amount one wants to
receive to the amount to invoice, so that a site's fee can be deducted and
the wanted amount (with or without consumption tax) is still left.

## Layout

- `src/` is the verified library (Verus):
  - `app_model.rs`: the form and the list of sites as a state machine. Each
    action is stated as a step on `ModelView`, and the laws of the model are
    proof functions there.
  - `validation.rs`: the rules for the number fields, with their messages.
  - `format.rs`: whole amounts in decimal notation, with thousands
    separators and the yen sign; the trimming of fixed-point fee texts.
  - `model.rs`: the modes, the sites and the saved settings.
  - `text.rs`: trimming of white space.
  - `config.rs`: where the settings file lives.
- `app/` is the program around it: the gpui window, the settings file
  (serde and serde_json), and the floating-point work: parsing the number
  fields, comparing them, and computing the fee, invoice and received
  amounts of each row.
- `tests/` runs the library on concrete values.

Fee percentages, amounts and tax rates are binary64 floating-point numbers.
The library never computes with them: it keeps a fee as its bit pattern, and
takes what a number field reads as (`NumberReading`) from the program.
