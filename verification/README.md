# expense_tracker

The verified core of an expense and receipt tracking HTTP service.

`src/` is the library, checked by Verus. For each request of the service it
decides what to ask the database (`query::SelectPlan`, `query::TotalsPlan`,
`query::DeletePlan`), what to write (`NewExpense`, `ExpenseChange`, ...),
and what to answer (`utils::Error`, `CreatedEntity`, `AffectedRows`). Every
query made on behalf of a user, listings and totals alike, is proved to keep
to that user's rows, both as a property of its conditions
(`query::scoped_to`) and, for expenses, receipts and expenses with daily
salary, against the meaning of the conditions (`lemma_*_selects`,
`lemma_*_answer_depends_on_own_rows`). The delete of a money record is a
verified step function (`specific::expence::delete_money`) whose whole run
is proved in `lemma_money_delete_run`. Passwords are hashed with Argon2
behind small trusted wrappers whose contracts are stated in their doc
comments.

`app/` is the service around it: command line, axum routes, SeaORM entities
and migrations, the execution of the plans, and the floating-point totals.

`tests/` runs the library on concrete requests.
